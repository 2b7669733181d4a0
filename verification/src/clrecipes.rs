//! The recipes of the Cranelift backend's built-in operations that are
//! more than one runtime call: printing, string and list operations, and
//! constructors of `Option`- and `Result`-like values. Each is given as
//! steps (see `clrecipe`).

use vstd::prelude::*;
use crate::clrecipe::{Recipe, Regs, SigKind, Step};
use crate::mach::{Conv, FUn, ICond, ImmOp, IOp, MTy};
use crate::text::str_eq;

verus! {

/// The steps of built-in `print_int`.
pub open spec fn print_int_steps() -> Seq<Step> {
    seq![
        Step::Str(0),
        Step::Arg(0),
        Step::CallOrZero("printf", Regs::R2(0, 1)),
    ]
}

/// The string constants of built-in `print_int`.
pub open spec fn print_int_texts() -> Seq<&'static str> {
    seq!["%ld"]
}

fn print_int_recipe() -> (r: Recipe)
    ensures
        r.texts@ == print_int_texts(),
        r.steps@ == print_int_steps(),
        r.result == 2,
{
    Recipe {
        texts: vec!["%ld"],
        steps: vec![
            Step::Str(0),
            Step::Arg(0),
            Step::CallOrZero("printf", Regs::R2(0, 1)),
        ],
        result: 2,
    }
}

/// The steps of built-in `print_float`.
pub open spec fn print_float_steps() -> Seq<Step> {
    seq![
        Step::Str(0),
        Step::FuncAddr("printf"),
        Step::Arg(0),
        Step::CallIndirect(SigKind::PrintfF64, 1, Regs::R2(0, 2)),
    ]
}

/// The string constants of built-in `print_float`.
pub open spec fn print_float_texts() -> Seq<&'static str> {
    seq!["%.6f"]
}

fn print_float_recipe() -> (r: Recipe)
    ensures
        r.texts@ == print_float_texts(),
        r.steps@ == print_float_steps(),
        r.result == 3,
{
    Recipe {
        texts: vec!["%.6f"],
        steps: vec![
            Step::Str(0),
            Step::FuncAddr("printf"),
            Step::Arg(0),
            Step::CallIndirect(SigKind::PrintfF64, 1, Regs::R2(0, 2)),
        ],
        result: 3,
    }
}

/// The steps of built-in `print_bool`.
pub open spec fn print_bool_steps() -> Seq<Step> {
    seq![
        Step::Str(0),
        Step::Str(1),
        Step::Str(2),
        Step::Arg(0),
        Step::Select(3, 1, 2),
        Step::FuncAddr("printf"),
        Step::CallIndirect(SigKind::PrintfPtr, 5, Regs::R2(0, 4)),
    ]
}

/// The string constants of built-in `print_bool`.
pub open spec fn print_bool_texts() -> Seq<&'static str> {
    seq!["%s", "true", "false"]
}

fn print_bool_recipe() -> (r: Recipe)
    ensures
        r.texts@ == print_bool_texts(),
        r.steps@ == print_bool_steps(),
        r.result == 6,
{
    Recipe {
        texts: vec!["%s", "true", "false"],
        steps: vec![
            Step::Str(0),
            Step::Str(1),
            Step::Str(2),
            Step::Arg(0),
            Step::Select(3, 1, 2),
            Step::FuncAddr("printf"),
            Step::CallIndirect(SigKind::PrintfPtr, 5, Regs::R2(0, 4)),
        ],
        result: 6,
    }
}

/// The steps of built-in `print`.
pub open spec fn print_steps() -> Seq<Step> {
    seq![
        Step::Str(0),
        Step::Arg(0),
        Step::CallOrZero("printf", Regs::R2(0, 1)),
    ]
}

/// The string constants of built-in `print`.
pub open spec fn print_texts() -> Seq<&'static str> {
    seq!["%s"]
}

fn print_recipe() -> (r: Recipe)
    ensures
        r.texts@ == print_texts(),
        r.steps@ == print_steps(),
        r.result == 2,
{
    Recipe {
        texts: vec!["%s"],
        steps: vec![
            Step::Str(0),
            Step::Arg(0),
            Step::CallOrZero("printf", Regs::R2(0, 1)),
        ],
        result: 2,
    }
}

/// The steps of built-in `abs`.
pub open spec fn abs_steps() -> Seq<Step> {
    seq![
        Step::Arg(0),
        Step::IConst(MTy::I64, 0),
        Step::IBin(IOp::Sub, 1, 0),
        Step::ICmp(ICond::Slt, 0, 1),
        Step::Select(3, 2, 0),
    ]
}

/// The string constants of built-in `abs`.
pub open spec fn abs_texts() -> Seq<&'static str> {
    Seq::empty()
}

fn abs_recipe() -> (r: Recipe)
    ensures
        r.texts@ == abs_texts(),
        r.steps@ == abs_steps(),
        r.result == 4,
{
    Recipe {
        texts: Vec::new(),
        steps: vec![
            Step::Arg(0),
            Step::IConst(MTy::I64, 0),
            Step::IBin(IOp::Sub, 1, 0),
            Step::ICmp(ICond::Slt, 0, 1),
            Step::Select(3, 2, 0),
        ],
        result: 4,
    }
}

/// The steps of built-in `min`.
pub open spec fn min_steps() -> Seq<Step> {
    seq![
        Step::Arg(0),
        Step::Arg(1),
        Step::ICmp(ICond::Slt, 0, 1),
        Step::Select(2, 0, 1),
    ]
}

/// The string constants of built-in `min`.
pub open spec fn min_texts() -> Seq<&'static str> {
    Seq::empty()
}

fn min_recipe() -> (r: Recipe)
    ensures
        r.texts@ == min_texts(),
        r.steps@ == min_steps(),
        r.result == 3,
{
    Recipe {
        texts: Vec::new(),
        steps: vec![
            Step::Arg(0),
            Step::Arg(1),
            Step::ICmp(ICond::Slt, 0, 1),
            Step::Select(2, 0, 1),
        ],
        result: 3,
    }
}

/// The steps of built-in `max`.
pub open spec fn max_steps() -> Seq<Step> {
    seq![
        Step::Arg(0),
        Step::Arg(1),
        Step::ICmp(ICond::Sgt, 0, 1),
        Step::Select(2, 0, 1),
    ]
}

/// The string constants of built-in `max`.
pub open spec fn max_texts() -> Seq<&'static str> {
    Seq::empty()
}

fn max_recipe() -> (r: Recipe)
    ensures
        r.texts@ == max_texts(),
        r.steps@ == max_steps(),
        r.result == 3,
{
    Recipe {
        texts: Vec::new(),
        steps: vec![
            Step::Arg(0),
            Step::Arg(1),
            Step::ICmp(ICond::Sgt, 0, 1),
            Step::Select(2, 0, 1),
        ],
        result: 3,
    }
}

/// The steps of built-in `mod_int`.
pub open spec fn mod_int_steps() -> Seq<Step> {
    seq![
        Step::Arg(0),
        Step::Arg(1),
        Step::IBin(IOp::SDiv, 0, 1),
        Step::IBin(IOp::Mul, 2, 1),
        Step::IBin(IOp::Sub, 0, 3),
    ]
}

/// The string constants of built-in `mod_int`.
pub open spec fn mod_int_texts() -> Seq<&'static str> {
    Seq::empty()
}

fn mod_int_recipe() -> (r: Recipe)
    ensures
        r.texts@ == mod_int_texts(),
        r.steps@ == mod_int_steps(),
        r.result == 4,
{
    Recipe {
        texts: Vec::new(),
        steps: vec![
            Step::Arg(0),
            Step::Arg(1),
            Step::IBin(IOp::SDiv, 0, 1),
            Step::IBin(IOp::Mul, 2, 1),
            Step::IBin(IOp::Sub, 0, 3),
        ],
        result: 4,
    }
}

/// The steps of built-in `int_to_string`.
pub open spec fn int_to_string_steps() -> Seq<Step> {
    seq![
        Step::IConst(MTy::I64, 32),
        Step::Call("malloc", Regs::R1(0)),
        Step::Str(0),
        Step::Arg(0),
        Step::CallVoid("snprintf", Regs::R4(1, 0, 2, 3)),
    ]
}

/// The string constants of built-in `int_to_string`.
pub open spec fn int_to_string_texts() -> Seq<&'static str> {
    seq!["%ld"]
}

fn int_to_string_recipe() -> (r: Recipe)
    ensures
        r.texts@ == int_to_string_texts(),
        r.steps@ == int_to_string_steps(),
        r.result == 1,
{
    Recipe {
        texts: vec!["%ld"],
        steps: vec![
            Step::IConst(MTy::I64, 32),
            Step::Call("malloc", Regs::R1(0)),
            Step::Str(0),
            Step::Arg(0),
            Step::CallVoid("snprintf", Regs::R4(1, 0, 2, 3)),
        ],
        result: 1,
    }
}

/// The steps of built-in `string_concat`.
pub open spec fn string_concat_steps() -> Seq<Step> {
    seq![
        Step::Arg(0),
        Step::Arg(1),
        Step::Call("strlen", Regs::R1(0)),
        Step::Call("strlen", Regs::R1(1)),
        Step::IBin(IOp::Add, 2, 3),
        Step::IConst(MTy::I64, 1),
        Step::IBin(IOp::Add, 4, 5),
        Step::Call("malloc", Regs::R1(6)),
        Step::CallVoid("strcpy", Regs::R2(7, 0)),
        Step::CallVoid("strcat", Regs::R2(7, 1)),
    ]
}

/// The string constants of built-in `string_concat`.
pub open spec fn string_concat_texts() -> Seq<&'static str> {
    Seq::empty()
}

fn string_concat_recipe() -> (r: Recipe)
    ensures
        r.texts@ == string_concat_texts(),
        r.steps@ == string_concat_steps(),
        r.result == 7,
{
    Recipe {
        texts: Vec::new(),
        steps: vec![
            Step::Arg(0),
            Step::Arg(1),
            Step::Call("strlen", Regs::R1(0)),
            Step::Call("strlen", Regs::R1(1)),
            Step::IBin(IOp::Add, 2, 3),
            Step::IConst(MTy::I64, 1),
            Step::IBin(IOp::Add, 4, 5),
            Step::Call("malloc", Regs::R1(6)),
            Step::CallVoid("strcpy", Regs::R2(7, 0)),
            Step::CallVoid("strcat", Regs::R2(7, 1)),
        ],
        result: 7,
    }
}

/// The steps of built-in `string_contains`.
pub open spec fn string_contains_steps() -> Seq<Step> {
    seq![
        Step::Arg(0),
        Step::Arg(1),
        Step::Call("strstr", Regs::R2(0, 1)),
        Step::IConst(MTy::I64, 0),
        Step::ICmp(ICond::Ne, 2, 3),
    ]
}

/// The string constants of built-in `string_contains`.
pub open spec fn string_contains_texts() -> Seq<&'static str> {
    Seq::empty()
}

fn string_contains_recipe() -> (r: Recipe)
    ensures
        r.texts@ == string_contains_texts(),
        r.steps@ == string_contains_steps(),
        r.result == 4,
{
    Recipe {
        texts: Vec::new(),
        steps: vec![
            Step::Arg(0),
            Step::Arg(1),
            Step::Call("strstr", Regs::R2(0, 1)),
            Step::IConst(MTy::I64, 0),
            Step::ICmp(ICond::Ne, 2, 3),
        ],
        result: 4,
    }
}

/// The steps of built-in `string_starts_with`.
pub open spec fn string_starts_with_steps() -> Seq<Step> {
    seq![
        Step::Arg(0),
        Step::Arg(1),
        Step::Call("strlen", Regs::R1(1)),
        Step::Call("strncmp", Regs::R3(0, 1, 2)),
        Step::IConst(MTy::I32, 0),
        Step::ICmp(ICond::Eq, 3, 4),
    ]
}

/// The string constants of built-in `string_starts_with`.
pub open spec fn string_starts_with_texts() -> Seq<&'static str> {
    Seq::empty()
}

fn string_starts_with_recipe() -> (r: Recipe)
    ensures
        r.texts@ == string_starts_with_texts(),
        r.steps@ == string_starts_with_steps(),
        r.result == 5,
{
    Recipe {
        texts: Vec::new(),
        steps: vec![
            Step::Arg(0),
            Step::Arg(1),
            Step::Call("strlen", Regs::R1(1)),
            Step::Call("strncmp", Regs::R3(0, 1, 2)),
            Step::IConst(MTy::I32, 0),
            Step::ICmp(ICond::Eq, 3, 4),
        ],
        result: 5,
    }
}

/// The steps of built-in `string_eq`.
pub open spec fn string_eq_steps() -> Seq<Step> {
    seq![
        Step::Arg(0),
        Step::Arg(1),
        Step::Call("strcmp", Regs::R2(0, 1)),
        Step::IConst(MTy::I32, 0),
        Step::ICmp(ICond::Eq, 2, 3),
    ]
}

/// The string constants of built-in `string_eq`.
pub open spec fn string_eq_texts() -> Seq<&'static str> {
    Seq::empty()
}

fn string_eq_recipe() -> (r: Recipe)
    ensures
        r.texts@ == string_eq_texts(),
        r.steps@ == string_eq_steps(),
        r.result == 4,
{
    Recipe {
        texts: Vec::new(),
        steps: vec![
            Step::Arg(0),
            Step::Arg(1),
            Step::Call("strcmp", Regs::R2(0, 1)),
            Step::IConst(MTy::I32, 0),
            Step::ICmp(ICond::Eq, 2, 3),
        ],
        result: 4,
    }
}

/// The steps of built-in `string_ends_with`.
pub open spec fn string_ends_with_steps() -> Seq<Step> {
    seq![
        Step::Arg(0),
        Step::Arg(1),
        Step::Call("strlen", Regs::R1(0)),
        Step::Call("strlen", Regs::R1(1)),
        Step::IBin(IOp::Sub, 2, 3),
        Step::IBin(IOp::Add, 0, 4),
        Step::Call("strncmp", Regs::R3(5, 1, 3)),
        Step::IConst(MTy::I32, 0),
        Step::ICmp(ICond::Eq, 6, 7),
    ]
}

/// The string constants of built-in `string_ends_with`.
pub open spec fn string_ends_with_texts() -> Seq<&'static str> {
    Seq::empty()
}

fn string_ends_with_recipe() -> (r: Recipe)
    ensures
        r.texts@ == string_ends_with_texts(),
        r.steps@ == string_ends_with_steps(),
        r.result == 8,
{
    Recipe {
        texts: Vec::new(),
        steps: vec![
            Step::Arg(0),
            Step::Arg(1),
            Step::Call("strlen", Regs::R1(0)),
            Step::Call("strlen", Regs::R1(1)),
            Step::IBin(IOp::Sub, 2, 3),
            Step::IBin(IOp::Add, 0, 4),
            Step::Call("strncmp", Regs::R3(5, 1, 3)),
            Step::IConst(MTy::I32, 0),
            Step::ICmp(ICond::Eq, 6, 7),
        ],
        result: 8,
    }
}

/// The steps of built-in `string_substring`.
pub open spec fn string_substring_steps() -> Seq<Step> {
    seq![
        Step::Arg(0),
        Step::Arg(1),
        Step::Arg(2),
        Step::IBin(IOp::Sub, 2, 1),
        Step::IConst(MTy::I64, 1),
        Step::IBin(IOp::Add, 3, 4),
        Step::Call("malloc", Regs::R1(5)),
        Step::IBin(IOp::Add, 0, 1),
        Step::CallVoid("memcpy", Regs::R3(6, 7, 3)),
        Step::IConst(MTy::I8, 0),
        Step::IBin(IOp::Add, 6, 3),
        Step::Store(8, 9, 0),
    ]
}

/// The string constants of built-in `string_substring`.
pub open spec fn string_substring_texts() -> Seq<&'static str> {
    Seq::empty()
}

fn string_substring_recipe() -> (r: Recipe)
    ensures
        r.texts@ == string_substring_texts(),
        r.steps@ == string_substring_steps(),
        r.result == 6,
{
    Recipe {
        texts: Vec::new(),
        steps: vec![
            Step::Arg(0),
            Step::Arg(1),
            Step::Arg(2),
            Step::IBin(IOp::Sub, 2, 1),
            Step::IConst(MTy::I64, 1),
            Step::IBin(IOp::Add, 3, 4),
            Step::Call("malloc", Regs::R1(5)),
            Step::IBin(IOp::Add, 0, 1),
            Step::CallVoid("memcpy", Regs::R3(6, 7, 3)),
            Step::IConst(MTy::I8, 0),
            Step::IBin(IOp::Add, 6, 3),
            Step::Store(8, 9, 0),
        ],
        result: 6,
    }
}

/// The steps of built-in `string_to_upper`.
pub open spec fn string_to_upper_steps() -> Seq<Step> {
    seq![
        Step::Arg(0),
        Step::Call("strlen", Regs::R1(0)),
        Step::IConst(MTy::I64, 1),
        Step::IBin(IOp::Add, 1, 2),
        Step::Call("malloc", Regs::R1(3)),
        Step::Block,
        Step::Block,
        Step::Block,
        Step::Param(0, MTy::I64),
        Step::IConst(MTy::I64, 0),
        Step::Jump(0, Regs::R1(6)),
        Step::Switch(0),
        Step::ICmp(ICond::Slt, 5, 1),
        Step::Brif(7, 1, Regs::R0, 2, Regs::R0),
        Step::Switch(1),
        Step::Seal(1),
        Step::IBin(IOp::Add, 0, 5),
        Step::Load(MTy::I8, 8, 0),
        Step::Convert(Conv::UExtend, MTy::I32, 9),
        Step::Call("toupper", Regs::R1(10)),
        Step::Convert(Conv::IReduce, MTy::I8, 11),
        Step::IBin(IOp::Add, 4, 5),
        Step::Store(12, 13, 0),
        Step::IConst(MTy::I64, 1),
        Step::IBin(IOp::Add, 5, 14),
        Step::Jump(0, Regs::R1(15)),
        Step::Seal(0),
        Step::Switch(2),
        Step::Seal(2),
        Step::IConst(MTy::I8, 0),
        Step::IBin(IOp::Add, 4, 1),
        Step::Store(16, 17, 0),
    ]
}

/// The string constants of built-in `string_to_upper`.
pub open spec fn string_to_upper_texts() -> Seq<&'static str> {
    Seq::empty()
}

fn string_to_upper_recipe() -> (r: Recipe)
    ensures
        r.texts@ == string_to_upper_texts(),
        r.steps@ == string_to_upper_steps(),
        r.result == 4,
{
    Recipe {
        texts: Vec::new(),
        steps: vec![
            Step::Arg(0),
            Step::Call("strlen", Regs::R1(0)),
            Step::IConst(MTy::I64, 1),
            Step::IBin(IOp::Add, 1, 2),
            Step::Call("malloc", Regs::R1(3)),
            Step::Block,
            Step::Block,
            Step::Block,
            Step::Param(0, MTy::I64),
            Step::IConst(MTy::I64, 0),
            Step::Jump(0, Regs::R1(6)),
            Step::Switch(0),
            Step::ICmp(ICond::Slt, 5, 1),
            Step::Brif(7, 1, Regs::R0, 2, Regs::R0),
            Step::Switch(1),
            Step::Seal(1),
            Step::IBin(IOp::Add, 0, 5),
            Step::Load(MTy::I8, 8, 0),
            Step::Convert(Conv::UExtend, MTy::I32, 9),
            Step::Call("toupper", Regs::R1(10)),
            Step::Convert(Conv::IReduce, MTy::I8, 11),
            Step::IBin(IOp::Add, 4, 5),
            Step::Store(12, 13, 0),
            Step::IConst(MTy::I64, 1),
            Step::IBin(IOp::Add, 5, 14),
            Step::Jump(0, Regs::R1(15)),
            Step::Seal(0),
            Step::Switch(2),
            Step::Seal(2),
            Step::IConst(MTy::I8, 0),
            Step::IBin(IOp::Add, 4, 1),
            Step::Store(16, 17, 0),
        ],
        result: 4,
    }
}

/// The steps of built-in `string_to_lower`.
pub open spec fn string_to_lower_steps() -> Seq<Step> {
    seq![
        Step::Arg(0),
        Step::Call("strlen", Regs::R1(0)),
        Step::IConst(MTy::I64, 1),
        Step::IBin(IOp::Add, 1, 2),
        Step::Call("malloc", Regs::R1(3)),
        Step::Block,
        Step::Block,
        Step::Block,
        Step::Param(0, MTy::I64),
        Step::IConst(MTy::I64, 0),
        Step::Jump(0, Regs::R1(6)),
        Step::Switch(0),
        Step::ICmp(ICond::Slt, 5, 1),
        Step::Brif(7, 1, Regs::R0, 2, Regs::R0),
        Step::Switch(1),
        Step::Seal(1),
        Step::IBin(IOp::Add, 0, 5),
        Step::Load(MTy::I8, 8, 0),
        Step::Convert(Conv::UExtend, MTy::I32, 9),
        Step::Call("tolower", Regs::R1(10)),
        Step::Convert(Conv::IReduce, MTy::I8, 11),
        Step::IBin(IOp::Add, 4, 5),
        Step::Store(12, 13, 0),
        Step::IConst(MTy::I64, 1),
        Step::IBin(IOp::Add, 5, 14),
        Step::Jump(0, Regs::R1(15)),
        Step::Seal(0),
        Step::Switch(2),
        Step::Seal(2),
        Step::IConst(MTy::I8, 0),
        Step::IBin(IOp::Add, 4, 1),
        Step::Store(16, 17, 0),
    ]
}

/// The string constants of built-in `string_to_lower`.
pub open spec fn string_to_lower_texts() -> Seq<&'static str> {
    Seq::empty()
}

fn string_to_lower_recipe() -> (r: Recipe)
    ensures
        r.texts@ == string_to_lower_texts(),
        r.steps@ == string_to_lower_steps(),
        r.result == 4,
{
    Recipe {
        texts: Vec::new(),
        steps: vec![
            Step::Arg(0),
            Step::Call("strlen", Regs::R1(0)),
            Step::IConst(MTy::I64, 1),
            Step::IBin(IOp::Add, 1, 2),
            Step::Call("malloc", Regs::R1(3)),
            Step::Block,
            Step::Block,
            Step::Block,
            Step::Param(0, MTy::I64),
            Step::IConst(MTy::I64, 0),
            Step::Jump(0, Regs::R1(6)),
            Step::Switch(0),
            Step::ICmp(ICond::Slt, 5, 1),
            Step::Brif(7, 1, Regs::R0, 2, Regs::R0),
            Step::Switch(1),
            Step::Seal(1),
            Step::IBin(IOp::Add, 0, 5),
            Step::Load(MTy::I8, 8, 0),
            Step::Convert(Conv::UExtend, MTy::I32, 9),
            Step::Call("tolower", Regs::R1(10)),
            Step::Convert(Conv::IReduce, MTy::I8, 11),
            Step::IBin(IOp::Add, 4, 5),
            Step::Store(12, 13, 0),
            Step::IConst(MTy::I64, 1),
            Step::IBin(IOp::Add, 5, 14),
            Step::Jump(0, Regs::R1(15)),
            Step::Seal(0),
            Step::Switch(2),
            Step::Seal(2),
            Step::IConst(MTy::I8, 0),
            Step::IBin(IOp::Add, 4, 1),
            Step::Store(16, 17, 0),
        ],
        result: 4,
    }
}

/// The steps of built-in `string_replace`.
pub open spec fn string_replace_steps() -> Seq<Step> {
    seq![
        Step::Arg(0),
        Step::Arg(1),
        Step::Arg(2),
        Step::Call("strlen", Regs::R1(0)),
        Step::Call("strlen", Regs::R1(1)),
        Step::Call("strlen", Regs::R1(2)),
        Step::IConst(MTy::I64, 0),
        Step::ICmp(ICond::Eq, 4, 6),
        Step::Block,
        Step::Block,
        Step::Block,
        Step::Param(2, MTy::I64),
        Step::Brif(7, 0, Regs::R0, 1, Regs::R0),
        Step::Switch(0),
        Step::Seal(0),
        Step::IConst(MTy::I64, 1),
        Step::IBin(IOp::Add, 3, 9),
        Step::Call("malloc", Regs::R1(10)),
        Step::CallVoid("strcpy", Regs::R2(11, 0)),
        Step::Jump(2, Regs::R1(11)),
        Step::Switch(1),
        Step::Seal(1),
        Step::IConst(MTy::I64, 1),
        Step::IBin(IOp::Add, 5, 12),
        Step::IBin(IOp::Mul, 3, 13),
        Step::IBin(IOp::Add, 14, 12),
        Step::Call("malloc", Regs::R1(15)),
        Step::Block,
        Step::Block,
        Step::Block,
        Step::Param(3, MTy::I64),
        Step::Param(3, MTy::I64),
        Step::Jump(3, Regs::R2(0, 16)),
        Step::Switch(3),
        Step::Call("strstr", Regs::R2(17, 1)),
        Step::IConst(MTy::I64, 0),
        Step::ICmp(ICond::Eq, 19, 20),
        Step::Brif(21, 5, Regs::R0, 4, Regs::R0),
        Step::Switch(4),
        Step::Seal(4),
        Step::IBin(IOp::Sub, 19, 17),
        Step::CallVoid("memcpy", Regs::R3(18, 17, 22)),
        Step::IBin(IOp::Add, 18, 22),
        Step::CallVoid("memcpy", Regs::R3(23, 2, 5)),
        Step::IBin(IOp::Add, 23, 5),
        Step::IBin(IOp::Add, 19, 4),
        Step::Jump(3, Regs::R2(25, 24)),
        Step::Seal(3),
        Step::Switch(5),
        Step::Seal(5),
        Step::CallVoid("strcpy", Regs::R2(18, 17)),
        Step::Jump(2, Regs::R1(16)),
        Step::Switch(2),
        Step::Seal(2),
    ]
}

/// The string constants of built-in `string_replace`.
pub open spec fn string_replace_texts() -> Seq<&'static str> {
    Seq::empty()
}

fn string_replace_recipe() -> (r: Recipe)
    ensures
        r.texts@ == string_replace_texts(),
        r.steps@ == string_replace_steps(),
        r.result == 8,
{
    Recipe {
        texts: Vec::new(),
        steps: vec![
            Step::Arg(0),
            Step::Arg(1),
            Step::Arg(2),
            Step::Call("strlen", Regs::R1(0)),
            Step::Call("strlen", Regs::R1(1)),
            Step::Call("strlen", Regs::R1(2)),
            Step::IConst(MTy::I64, 0),
            Step::ICmp(ICond::Eq, 4, 6),
            Step::Block,
            Step::Block,
            Step::Block,
            Step::Param(2, MTy::I64),
            Step::Brif(7, 0, Regs::R0, 1, Regs::R0),
            Step::Switch(0),
            Step::Seal(0),
            Step::IConst(MTy::I64, 1),
            Step::IBin(IOp::Add, 3, 9),
            Step::Call("malloc", Regs::R1(10)),
            Step::CallVoid("strcpy", Regs::R2(11, 0)),
            Step::Jump(2, Regs::R1(11)),
            Step::Switch(1),
            Step::Seal(1),
            Step::IConst(MTy::I64, 1),
            Step::IBin(IOp::Add, 5, 12),
            Step::IBin(IOp::Mul, 3, 13),
            Step::IBin(IOp::Add, 14, 12),
            Step::Call("malloc", Regs::R1(15)),
            Step::Block,
            Step::Block,
            Step::Block,
            Step::Param(3, MTy::I64),
            Step::Param(3, MTy::I64),
            Step::Jump(3, Regs::R2(0, 16)),
            Step::Switch(3),
            Step::Call("strstr", Regs::R2(17, 1)),
            Step::IConst(MTy::I64, 0),
            Step::ICmp(ICond::Eq, 19, 20),
            Step::Brif(21, 5, Regs::R0, 4, Regs::R0),
            Step::Switch(4),
            Step::Seal(4),
            Step::IBin(IOp::Sub, 19, 17),
            Step::CallVoid("memcpy", Regs::R3(18, 17, 22)),
            Step::IBin(IOp::Add, 18, 22),
            Step::CallVoid("memcpy", Regs::R3(23, 2, 5)),
            Step::IBin(IOp::Add, 23, 5),
            Step::IBin(IOp::Add, 19, 4),
            Step::Jump(3, Regs::R2(25, 24)),
            Step::Seal(3),
            Step::Switch(5),
            Step::Seal(5),
            Step::CallVoid("strcpy", Regs::R2(18, 17)),
            Step::Jump(2, Regs::R1(16)),
            Step::Switch(2),
            Step::Seal(2),
        ],
        result: 8,
    }
}

/// The steps of built-in `string_index_of`.
pub open spec fn string_index_of_steps() -> Seq<Step> {
    seq![
        Step::Arg(0),
        Step::Arg(1),
        Step::Call("strstr", Regs::R2(0, 1)),
        Step::IConst(MTy::I64, 0),
        Step::ICmp(ICond::Eq, 2, 3),
        Step::IBin(IOp::Sub, 2, 0),
        Step::IConst(MTy::I64, -1i64),
        Step::Select(4, 6, 5),
    ]
}

/// The string constants of built-in `string_index_of`.
pub open spec fn string_index_of_texts() -> Seq<&'static str> {
    Seq::empty()
}

fn string_index_of_recipe() -> (r: Recipe)
    ensures
        r.texts@ == string_index_of_texts(),
        r.steps@ == string_index_of_steps(),
        r.result == 7,
{
    Recipe {
        texts: Vec::new(),
        steps: vec![
            Step::Arg(0),
            Step::Arg(1),
            Step::Call("strstr", Regs::R2(0, 1)),
            Step::IConst(MTy::I64, 0),
            Step::ICmp(ICond::Eq, 2, 3),
            Step::IBin(IOp::Sub, 2, 0),
            Step::IConst(MTy::I64, -1i64),
            Step::Select(4, 6, 5),
        ],
        result: 7,
    }
}

/// The steps of built-in `string_char_at`.
pub open spec fn string_char_at_steps() -> Seq<Step> {
    seq![
        Step::Arg(0),
        Step::Arg(1),
        Step::IConst(MTy::I64, 2),
        Step::Call("malloc", Regs::R1(2)),
        Step::IBin(IOp::Add, 0, 1),
        Step::Load(MTy::I8, 4, 0),
        Step::Store(5, 3, 0),
        Step::IConst(MTy::I8, 0),
        Step::IBinImm(ImmOp::Add, 3, 1),
        Step::Store(6, 7, 0),
    ]
}

/// The string constants of built-in `string_char_at`.
pub open spec fn string_char_at_texts() -> Seq<&'static str> {
    Seq::empty()
}

fn string_char_at_recipe() -> (r: Recipe)
    ensures
        r.texts@ == string_char_at_texts(),
        r.steps@ == string_char_at_steps(),
        r.result == 3,
{
    Recipe {
        texts: Vec::new(),
        steps: vec![
            Step::Arg(0),
            Step::Arg(1),
            Step::IConst(MTy::I64, 2),
            Step::Call("malloc", Regs::R1(2)),
            Step::IBin(IOp::Add, 0, 1),
            Step::Load(MTy::I8, 4, 0),
            Step::Store(5, 3, 0),
            Step::IConst(MTy::I8, 0),
            Step::IBinImm(ImmOp::Add, 3, 1),
            Step::Store(6, 7, 0),
        ],
        result: 3,
    }
}

/// The steps of built-in `string_char_code_at`.
pub open spec fn string_char_code_at_steps() -> Seq<Step> {
    seq![
        Step::Arg(0),
        Step::Arg(1),
        Step::IConst(MTy::I64, 0),
        Step::ICmp(ICond::Eq, 0, 2),
        Step::IBin(IOp::Add, 0, 1),
        Step::Load(MTy::I8, 4, 0),
        Step::Convert(Conv::UExtend, MTy::I64, 5),
        Step::IConst(MTy::I64, -1i64),
        Step::Select(3, 7, 6),
    ]
}

/// The string constants of built-in `string_char_code_at`.
pub open spec fn string_char_code_at_texts() -> Seq<&'static str> {
    Seq::empty()
}

fn string_char_code_at_recipe() -> (r: Recipe)
    ensures
        r.texts@ == string_char_code_at_texts(),
        r.steps@ == string_char_code_at_steps(),
        r.result == 8,
{
    Recipe {
        texts: Vec::new(),
        steps: vec![
            Step::Arg(0),
            Step::Arg(1),
            Step::IConst(MTy::I64, 0),
            Step::ICmp(ICond::Eq, 0, 2),
            Step::IBin(IOp::Add, 0, 1),
            Step::Load(MTy::I8, 4, 0),
            Step::Convert(Conv::UExtend, MTy::I64, 5),
            Step::IConst(MTy::I64, -1i64),
            Step::Select(3, 7, 6),
        ],
        result: 8,
    }
}

/// The steps of built-in `float_to_int`.
pub open spec fn float_to_int_steps() -> Seq<Step> {
    seq![
        Step::Arg(0),
        Step::Convert(Conv::FToSInt, MTy::I64, 0),
    ]
}

/// The string constants of built-in `float_to_int`.
pub open spec fn float_to_int_texts() -> Seq<&'static str> {
    Seq::empty()
}

fn float_to_int_recipe() -> (r: Recipe)
    ensures
        r.texts@ == float_to_int_texts(),
        r.steps@ == float_to_int_steps(),
        r.result == 1,
{
    Recipe {
        texts: Vec::new(),
        steps: vec![
            Step::Arg(0),
            Step::Convert(Conv::FToSInt, MTy::I64, 0),
        ],
        result: 1,
    }
}

/// The steps of built-in `int_to_float`.
pub open spec fn int_to_float_steps() -> Seq<Step> {
    seq![
        Step::Arg(0),
        Step::Convert(Conv::SIntToF, MTy::F64, 0),
    ]
}

/// The string constants of built-in `int_to_float`.
pub open spec fn int_to_float_texts() -> Seq<&'static str> {
    Seq::empty()
}

fn int_to_float_recipe() -> (r: Recipe)
    ensures
        r.texts@ == int_to_float_texts(),
        r.steps@ == int_to_float_steps(),
        r.result == 1,
{
    Recipe {
        texts: Vec::new(),
        steps: vec![
            Step::Arg(0),
            Step::Convert(Conv::SIntToF, MTy::F64, 0),
        ],
        result: 1,
    }
}

/// The steps of built-in `pow`.
pub open spec fn pow_steps() -> Seq<Step> {
    seq![
        Step::Arg(0),
        Step::Arg(1),
        Step::Block,
        Step::Block,
        Step::Block,
        Step::Param(0, MTy::I64),
        Step::Param(0, MTy::I64),
        Step::IConst(MTy::I64, 0),
        Step::IConst(MTy::I64, 1),
        Step::Jump(0, Regs::R2(4, 5)),
        Step::Switch(0),
        Step::ICmp(ICond::Slt, 2, 1),
        Step::Brif(6, 1, Regs::R0, 2, Regs::R0),
        Step::Switch(1),
        Step::Seal(1),
        Step::IBin(IOp::Mul, 3, 0),
        Step::IConst(MTy::I64, 1),
        Step::IBin(IOp::Add, 2, 8),
        Step::Jump(0, Regs::R2(9, 7)),
        Step::Seal(0),
        Step::Switch(2),
        Step::Seal(2),
    ]
}

/// The string constants of built-in `pow`.
pub open spec fn pow_texts() -> Seq<&'static str> {
    Seq::empty()
}

fn pow_recipe() -> (r: Recipe)
    ensures
        r.texts@ == pow_texts(),
        r.steps@ == pow_steps(),
        r.result == 3,
{
    Recipe {
        texts: Vec::new(),
        steps: vec![
            Step::Arg(0),
            Step::Arg(1),
            Step::Block,
            Step::Block,
            Step::Block,
            Step::Param(0, MTy::I64),
            Step::Param(0, MTy::I64),
            Step::IConst(MTy::I64, 0),
            Step::IConst(MTy::I64, 1),
            Step::Jump(0, Regs::R2(4, 5)),
            Step::Switch(0),
            Step::ICmp(ICond::Slt, 2, 1),
            Step::Brif(6, 1, Regs::R0, 2, Regs::R0),
            Step::Switch(1),
            Step::Seal(1),
            Step::IBin(IOp::Mul, 3, 0),
            Step::IConst(MTy::I64, 1),
            Step::IBin(IOp::Add, 2, 8),
            Step::Jump(0, Regs::R2(9, 7)),
            Step::Seal(0),
            Step::Switch(2),
            Step::Seal(2),
        ],
        result: 3,
    }
}

/// The steps of built-in `float_abs`.
pub open spec fn float_abs_steps() -> Seq<Step> {
    seq![
        Step::Arg(0),
        Step::FUnary(FUn::Abs, 0),
    ]
}

/// The string constants of built-in `float_abs`.
pub open spec fn float_abs_texts() -> Seq<&'static str> {
    Seq::empty()
}

fn float_abs_recipe() -> (r: Recipe)
    ensures
        r.texts@ == float_abs_texts(),
        r.steps@ == float_abs_steps(),
        r.result == 1,
{
    Recipe {
        texts: Vec::new(),
        steps: vec![
            Step::Arg(0),
            Step::FUnary(FUn::Abs, 0),
        ],
        result: 1,
    }
}

/// The steps of built-in `float_sqrt`.
pub open spec fn float_sqrt_steps() -> Seq<Step> {
    seq![
        Step::Arg(0),
        Step::FUnary(FUn::Sqrt, 0),
    ]
}

/// The string constants of built-in `float_sqrt`.
pub open spec fn float_sqrt_texts() -> Seq<&'static str> {
    Seq::empty()
}

fn float_sqrt_recipe() -> (r: Recipe)
    ensures
        r.texts@ == float_sqrt_texts(),
        r.steps@ == float_sqrt_steps(),
        r.result == 1,
{
    Recipe {
        texts: Vec::new(),
        steps: vec![
            Step::Arg(0),
            Step::FUnary(FUn::Sqrt, 0),
        ],
        result: 1,
    }
}

/// The steps of built-in `float_to_string`.
pub open spec fn float_to_string_steps() -> Seq<Step> {
    seq![
        Step::IConst(MTy::I64, 64),
        Step::Call("malloc", Regs::R1(0)),
        Step::Str(0),
        Step::FuncAddr("snprintf"),
        Step::Arg(0),
        Step::CallIndirect(SigKind::SnprintfF64, 3, Regs::R4(1, 0, 2, 4)),
    ]
}

/// The string constants of built-in `float_to_string`.
pub open spec fn float_to_string_texts() -> Seq<&'static str> {
    seq!["%g"]
}

fn float_to_string_recipe() -> (r: Recipe)
    ensures
        r.texts@ == float_to_string_texts(),
        r.steps@ == float_to_string_steps(),
        r.result == 1,
{
    Recipe {
        texts: vec!["%g"],
        steps: vec![
            Step::IConst(MTy::I64, 64),
            Step::Call("malloc", Regs::R1(0)),
            Step::Str(0),
            Step::FuncAddr("snprintf"),
            Step::Arg(0),
            Step::CallIndirect(SigKind::SnprintfF64, 3, Regs::R4(1, 0, 2, 4)),
        ],
        result: 1,
    }
}

/// The steps of built-in `bool_to_string`.
pub open spec fn bool_to_string_steps() -> Seq<Step> {
    seq![
        Step::Arg(0),
        Step::Str(0),
        Step::Str(1),
        Step::Select(0, 1, 2),
    ]
}

/// The string constants of built-in `bool_to_string`.
pub open spec fn bool_to_string_texts() -> Seq<&'static str> {
    seq!["true", "false"]
}

fn bool_to_string_recipe() -> (r: Recipe)
    ensures
        r.texts@ == bool_to_string_texts(),
        r.steps@ == bool_to_string_steps(),
        r.result == 3,
{
    Recipe {
        texts: vec!["true", "false"],
        steps: vec![
            Step::Arg(0),
            Step::Str(0),
            Step::Str(1),
            Step::Select(0, 1, 2),
        ],
        result: 3,
    }
}

/// The steps of built-in `json_get`.
pub open spec fn json_get_steps() -> Seq<Step> {
    seq![
        Step::Arg(0),
        Step::Arg(1),
        Step::Call("__gradient_json_get", Regs::R2(0, 1)),
        Step::IConst(MTy::I64, 0),
        Step::ICmp(ICond::Eq, 2, 3),
        Step::Block,
        Step::Block,
        Step::Block,
        Step::Param(2, MTy::I64),
        Step::Brif(4, 1, Regs::R0, 0, Regs::R0),
        Step::Switch(0),
        Step::Seal(0),
        Step::IConst(MTy::I64, 16),
        Step::Call("malloc", Regs::R1(6)),
        Step::IConst(MTy::I64, 0),
        Step::Store(8, 7, 0),
        Step::Store(2, 7, 8),
        Step::Jump(2, Regs::R1(7)),
        Step::Switch(1),
        Step::Seal(1),
        Step::IConst(MTy::I64, 8),
        Step::Call("malloc", Regs::R1(9)),
        Step::IConst(MTy::I64, 1),
        Step::Store(11, 10, 0),
        Step::Jump(2, Regs::R1(10)),
        Step::Seal(2),
        Step::Switch(2),
    ]
}

/// The string constants of built-in `json_get`.
pub open spec fn json_get_texts() -> Seq<&'static str> {
    Seq::empty()
}

fn json_get_recipe() -> (r: Recipe)
    ensures
        r.texts@ == json_get_texts(),
        r.steps@ == json_get_steps(),
        r.result == 5,
{
    Recipe {
        texts: Vec::new(),
        steps: vec![
            Step::Arg(0),
            Step::Arg(1),
            Step::Call("__gradient_json_get", Regs::R2(0, 1)),
            Step::IConst(MTy::I64, 0),
            Step::ICmp(ICond::Eq, 2, 3),
            Step::Block,
            Step::Block,
            Step::Block,
            Step::Param(2, MTy::I64),
            Step::Brif(4, 1, Regs::R0, 0, Regs::R0),
            Step::Switch(0),
            Step::Seal(0),
            Step::IConst(MTy::I64, 16),
            Step::Call("malloc", Regs::R1(6)),
            Step::IConst(MTy::I64, 0),
            Step::Store(8, 7, 0),
            Step::Store(2, 7, 8),
            Step::Jump(2, Regs::R1(7)),
            Step::Switch(1),
            Step::Seal(1),
            Step::IConst(MTy::I64, 8),
            Step::Call("malloc", Regs::R1(9)),
            Step::IConst(MTy::I64, 1),
            Step::Store(11, 10, 0),
            Step::Jump(2, Regs::R1(10)),
            Step::Seal(2),
            Step::Switch(2),
        ],
        result: 5,
    }
}

/// The steps of built-in `json_array_get`.
pub open spec fn json_array_get_steps() -> Seq<Step> {
    seq![
        Step::Arg(0),
        Step::Arg(1),
        Step::Call("__gradient_json_array_get", Regs::R2(0, 1)),
        Step::IConst(MTy::I64, 0),
        Step::ICmp(ICond::Eq, 2, 3),
        Step::Block,
        Step::Block,
        Step::Block,
        Step::Param(2, MTy::I64),
        Step::Brif(4, 1, Regs::R0, 0, Regs::R0),
        Step::Switch(0),
        Step::Seal(0),
        Step::IConst(MTy::I64, 16),
        Step::Call("malloc", Regs::R1(6)),
        Step::IConst(MTy::I64, 0),
        Step::Store(8, 7, 0),
        Step::Store(2, 7, 8),
        Step::Jump(2, Regs::R1(7)),
        Step::Switch(1),
        Step::Seal(1),
        Step::IConst(MTy::I64, 8),
        Step::Call("malloc", Regs::R1(9)),
        Step::IConst(MTy::I64, 1),
        Step::Store(11, 10, 0),
        Step::Jump(2, Regs::R1(10)),
        Step::Seal(2),
        Step::Switch(2),
    ]
}

/// The string constants of built-in `json_array_get`.
pub open spec fn json_array_get_texts() -> Seq<&'static str> {
    Seq::empty()
}

fn json_array_get_recipe() -> (r: Recipe)
    ensures
        r.texts@ == json_array_get_texts(),
        r.steps@ == json_array_get_steps(),
        r.result == 5,
{
    Recipe {
        texts: Vec::new(),
        steps: vec![
            Step::Arg(0),
            Step::Arg(1),
            Step::Call("__gradient_json_array_get", Regs::R2(0, 1)),
            Step::IConst(MTy::I64, 0),
            Step::ICmp(ICond::Eq, 2, 3),
            Step::Block,
            Step::Block,
            Step::Block,
            Step::Param(2, MTy::I64),
            Step::Brif(4, 1, Regs::R0, 0, Regs::R0),
            Step::Switch(0),
            Step::Seal(0),
            Step::IConst(MTy::I64, 16),
            Step::Call("malloc", Regs::R1(6)),
            Step::IConst(MTy::I64, 0),
            Step::Store(8, 7, 0),
            Step::Store(2, 7, 8),
            Step::Jump(2, Regs::R1(7)),
            Step::Switch(1),
            Step::Seal(1),
            Step::IConst(MTy::I64, 8),
            Step::Call("malloc", Regs::R1(9)),
            Step::IConst(MTy::I64, 1),
            Step::Store(11, 10, 0),
            Step::Jump(2, Regs::R1(10)),
            Step::Seal(2),
            Step::Switch(2),
        ],
        result: 5,
    }
}

/// The steps of built-in `map_get`.
pub open spec fn map_get_steps() -> Seq<Step> {
    seq![
        Step::Arg(0),
        Step::Arg(1),
        Step::Call("__gradient_map_get_str", Regs::R2(0, 1)),
        Step::IConst(MTy::I64, 0),
        Step::ICmp(ICond::Eq, 2, 3),
        Step::Block,
        Step::Block,
        Step::Block,
        Step::Param(2, MTy::I64),
        Step::Brif(4, 1, Regs::R0, 0, Regs::R0),
        Step::Switch(0),
        Step::Seal(0),
        Step::IConst(MTy::I64, 16),
        Step::Call("malloc", Regs::R1(6)),
        Step::IConst(MTy::I64, 0),
        Step::Store(8, 7, 0),
        Step::Store(2, 7, 8),
        Step::Jump(2, Regs::R1(7)),
        Step::Switch(1),
        Step::Seal(1),
        Step::IConst(MTy::I64, 8),
        Step::Call("malloc", Regs::R1(9)),
        Step::IConst(MTy::I64, 1),
        Step::Store(11, 10, 0),
        Step::Jump(2, Regs::R1(10)),
        Step::Seal(2),
        Step::Switch(2),
    ]
}

/// The string constants of built-in `map_get`.
pub open spec fn map_get_texts() -> Seq<&'static str> {
    Seq::empty()
}

fn map_get_recipe() -> (r: Recipe)
    ensures
        r.texts@ == map_get_texts(),
        r.steps@ == map_get_steps(),
        r.result == 5,
{
    Recipe {
        texts: Vec::new(),
        steps: vec![
            Step::Arg(0),
            Step::Arg(1),
            Step::Call("__gradient_map_get_str", Regs::R2(0, 1)),
            Step::IConst(MTy::I64, 0),
            Step::ICmp(ICond::Eq, 2, 3),
            Step::Block,
            Step::Block,
            Step::Block,
            Step::Param(2, MTy::I64),
            Step::Brif(4, 1, Regs::R0, 0, Regs::R0),
            Step::Switch(0),
            Step::Seal(0),
            Step::IConst(MTy::I64, 16),
            Step::Call("malloc", Regs::R1(6)),
            Step::IConst(MTy::I64, 0),
            Step::Store(8, 7, 0),
            Step::Store(2, 7, 8),
            Step::Jump(2, Regs::R1(7)),
            Step::Switch(1),
            Step::Seal(1),
            Step::IConst(MTy::I64, 8),
            Step::Call("malloc", Regs::R1(9)),
            Step::IConst(MTy::I64, 1),
            Step::Store(11, 10, 0),
            Step::Jump(2, Regs::R1(10)),
            Step::Seal(2),
            Step::Switch(2),
        ],
        result: 5,
    }
}

/// The steps of built-in `json_parse`.
pub open spec fn json_parse_steps() -> Seq<Step> {
    seq![
        Step::Arg(0),
        Step::IConst(MTy::I64, 0),
        Step::StackAddr(8, 3),
        Step::Store(1, 2, 0),
        Step::Call("__gradient_json_parse", Regs::R2(0, 2)),
        Step::Load(MTy::I64, 2, 0),
        Step::ICmpImm(ICond::Eq, 4, 1),
        Step::Block,
        Step::Block,
        Step::Block,
        Step::Param(2, MTy::I64),
        Step::Brif(5, 0, Regs::R0, 1, Regs::R0),
        Step::Switch(0),
        Step::Seal(0),
        Step::IConst(MTy::I64, 16),
        Step::Call("malloc", Regs::R1(7)),
        Step::IConst(MTy::I64, 0),
        Step::Store(9, 8, 0),
        Step::Store(3, 8, 8),
        Step::Jump(2, Regs::R1(8)),
        Step::Switch(1),
        Step::Seal(1),
        Step::IConst(MTy::I64, 16),
        Step::Call("malloc", Regs::R1(10)),
        Step::IConst(MTy::I64, 1),
        Step::Store(12, 11, 0),
        Step::Store(3, 11, 8),
        Step::Jump(2, Regs::R1(11)),
        Step::Seal(2),
        Step::Switch(2),
    ]
}

/// The string constants of built-in `json_parse`.
pub open spec fn json_parse_texts() -> Seq<&'static str> {
    Seq::empty()
}

fn json_parse_recipe() -> (r: Recipe)
    ensures
        r.texts@ == json_parse_texts(),
        r.steps@ == json_parse_steps(),
        r.result == 6,
{
    Recipe {
        texts: Vec::new(),
        steps: vec![
            Step::Arg(0),
            Step::IConst(MTy::I64, 0),
            Step::StackAddr(8, 3),
            Step::Store(1, 2, 0),
            Step::Call("__gradient_json_parse", Regs::R2(0, 2)),
            Step::Load(MTy::I64, 2, 0),
            Step::ICmpImm(ICond::Eq, 4, 1),
            Step::Block,
            Step::Block,
            Step::Block,
            Step::Param(2, MTy::I64),
            Step::Brif(5, 0, Regs::R0, 1, Regs::R0),
            Step::Switch(0),
            Step::Seal(0),
            Step::IConst(MTy::I64, 16),
            Step::Call("malloc", Regs::R1(7)),
            Step::IConst(MTy::I64, 0),
            Step::Store(9, 8, 0),
            Step::Store(3, 8, 8),
            Step::Jump(2, Regs::R1(8)),
            Step::Switch(1),
            Step::Seal(1),
            Step::IConst(MTy::I64, 16),
            Step::Call("malloc", Regs::R1(10)),
            Step::IConst(MTy::I64, 1),
            Step::Store(12, 11, 0),
            Step::Store(3, 11, 8),
            Step::Jump(2, Regs::R1(11)),
            Step::Seal(2),
            Step::Switch(2),
        ],
        result: 6,
    }
}

/// The steps of built-in `exit`.
pub open spec fn exit_steps() -> Seq<Step> {
    seq![
        Step::Arg(0),
        Step::Convert(Conv::IReduce, MTy::I32, 0),
        Step::CallVoid("exit", Regs::R1(1)),
        Step::IConst(MTy::I64, 0),
    ]
}

/// The string constants of built-in `exit`.
pub open spec fn exit_texts() -> Seq<&'static str> {
    Seq::empty()
}

fn exit_recipe() -> (r: Recipe)
    ensures
        r.texts@ == exit_texts(),
        r.steps@ == exit_steps(),
        r.result == 2,
{
    Recipe {
        texts: Vec::new(),
        steps: vec![
            Step::Arg(0),
            Step::Convert(Conv::IReduce, MTy::I32, 0),
            Step::CallVoid("exit", Regs::R1(1)),
            Step::IConst(MTy::I64, 0),
        ],
        result: 2,
    }
}

/// The steps of built-in `__gradient_contract_fail`.
pub open spec fn gradient_contract_fail_steps() -> Seq<Step> {
    seq![
        Step::Arg(0),
        Step::CallVoid("puts", Regs::R1(0)),
        Step::IConst(MTy::I32, 1),
        Step::CallVoid("exit", Regs::R1(1)),
        Step::IConst(MTy::I64, 0),
    ]
}

/// The string constants of built-in `__gradient_contract_fail`.
pub open spec fn gradient_contract_fail_texts() -> Seq<&'static str> {
    Seq::empty()
}

fn gradient_contract_fail_recipe() -> (r: Recipe)
    ensures
        r.texts@ == gradient_contract_fail_texts(),
        r.steps@ == gradient_contract_fail_steps(),
        r.result == 2,
{
    Recipe {
        texts: Vec::new(),
        steps: vec![
            Step::Arg(0),
            Step::CallVoid("puts", Regs::R1(0)),
            Step::IConst(MTy::I32, 1),
            Step::CallVoid("exit", Regs::R1(1)),
            Step::IConst(MTy::I64, 0),
        ],
        result: 2,
    }
}

/// The steps of built-in `list_length`.
pub open spec fn list_length_steps() -> Seq<Step> {
    seq![
        Step::Arg(0),
        Step::Load(MTy::I64, 0, 0),
    ]
}

/// The string constants of built-in `list_length`.
pub open spec fn list_length_texts() -> Seq<&'static str> {
    Seq::empty()
}

fn list_length_recipe() -> (r: Recipe)
    ensures
        r.texts@ == list_length_texts(),
        r.steps@ == list_length_steps(),
        r.result == 1,
{
    Recipe {
        texts: Vec::new(),
        steps: vec![
            Step::Arg(0),
            Step::Load(MTy::I64, 0, 0),
        ],
        result: 1,
    }
}

/// The steps of built-in `list_get`.
pub open spec fn list_get_steps() -> Seq<Step> {
    seq![
        Step::Arg(0),
        Step::Arg(1),
        Step::IConst(MTy::I64, 8),
        Step::IBin(IOp::Mul, 1, 2),
        Step::IConst(MTy::I64, 16),
        Step::IBin(IOp::Add, 3, 4),
        Step::IBin(IOp::Add, 0, 5),
        Step::Load(MTy::I64, 6, 0),
    ]
}

/// The string constants of built-in `list_get`.
pub open spec fn list_get_texts() -> Seq<&'static str> {
    Seq::empty()
}

fn list_get_recipe() -> (r: Recipe)
    ensures
        r.texts@ == list_get_texts(),
        r.steps@ == list_get_steps(),
        r.result == 7,
{
    Recipe {
        texts: Vec::new(),
        steps: vec![
            Step::Arg(0),
            Step::Arg(1),
            Step::IConst(MTy::I64, 8),
            Step::IBin(IOp::Mul, 1, 2),
            Step::IConst(MTy::I64, 16),
            Step::IBin(IOp::Add, 3, 4),
            Step::IBin(IOp::Add, 0, 5),
            Step::Load(MTy::I64, 6, 0),
        ],
        result: 7,
    }
}

/// The steps of built-in `list_is_empty`.
pub open spec fn list_is_empty_steps() -> Seq<Step> {
    seq![
        Step::Arg(0),
        Step::Load(MTy::I64, 0, 0),
        Step::IConst(MTy::I64, 0),
        Step::ICmp(ICond::Eq, 1, 2),
    ]
}

/// The string constants of built-in `list_is_empty`.
pub open spec fn list_is_empty_texts() -> Seq<&'static str> {
    Seq::empty()
}

fn list_is_empty_recipe() -> (r: Recipe)
    ensures
        r.texts@ == list_is_empty_texts(),
        r.steps@ == list_is_empty_steps(),
        r.result == 3,
{
    Recipe {
        texts: Vec::new(),
        steps: vec![
            Step::Arg(0),
            Step::Load(MTy::I64, 0, 0),
            Step::IConst(MTy::I64, 0),
            Step::ICmp(ICond::Eq, 1, 2),
        ],
        result: 3,
    }
}

/// The steps of built-in `list_head`.
pub open spec fn list_head_steps() -> Seq<Step> {
    seq![
        Step::Arg(0),
        Step::Load(MTy::I64, 0, 16),
    ]
}

/// The string constants of built-in `list_head`.
pub open spec fn list_head_texts() -> Seq<&'static str> {
    Seq::empty()
}

fn list_head_recipe() -> (r: Recipe)
    ensures
        r.texts@ == list_head_texts(),
        r.steps@ == list_head_steps(),
        r.result == 1,
{
    Recipe {
        texts: Vec::new(),
        steps: vec![
            Step::Arg(0),
            Step::Load(MTy::I64, 0, 16),
        ],
        result: 1,
    }
}

/// The steps of built-in `list_tail`.
pub open spec fn list_tail_steps() -> Seq<Step> {
    seq![
        Step::Arg(0),
        Step::Load(MTy::I64, 0, 0),
        Step::IConst(MTy::I64, 1),
        Step::IBin(IOp::Sub, 1, 2),
        Step::IConst(MTy::I64, 8),
        Step::IBin(IOp::Mul, 3, 4),
        Step::IConst(MTy::I64, 16),
        Step::IBin(IOp::Add, 5, 6),
        Step::Call("malloc", Regs::R1(7)),
        Step::Store(3, 8, 0),
        Step::Store(3, 8, 8),
        Step::IBinImm(ImmOp::Add, 0, 24),
        Step::IBinImm(ImmOp::Add, 8, 16),
        Step::CallVoid("memcpy", Regs::R3(10, 9, 5)),
    ]
}

/// The string constants of built-in `list_tail`.
pub open spec fn list_tail_texts() -> Seq<&'static str> {
    Seq::empty()
}

fn list_tail_recipe() -> (r: Recipe)
    ensures
        r.texts@ == list_tail_texts(),
        r.steps@ == list_tail_steps(),
        r.result == 8,
{
    Recipe {
        texts: Vec::new(),
        steps: vec![
            Step::Arg(0),
            Step::Load(MTy::I64, 0, 0),
            Step::IConst(MTy::I64, 1),
            Step::IBin(IOp::Sub, 1, 2),
            Step::IConst(MTy::I64, 8),
            Step::IBin(IOp::Mul, 3, 4),
            Step::IConst(MTy::I64, 16),
            Step::IBin(IOp::Add, 5, 6),
            Step::Call("malloc", Regs::R1(7)),
            Step::Store(3, 8, 0),
            Step::Store(3, 8, 8),
            Step::IBinImm(ImmOp::Add, 0, 24),
            Step::IBinImm(ImmOp::Add, 8, 16),
            Step::CallVoid("memcpy", Regs::R3(10, 9, 5)),
        ],
        result: 8,
    }
}

/// The steps of built-in `list_push`.
pub open spec fn list_push_steps() -> Seq<Step> {
    seq![
        Step::Arg(0),
        Step::Arg(1),
        Step::Load(MTy::I64, 0, 0),
        Step::IConst(MTy::I64, 1),
        Step::IBin(IOp::Add, 2, 3),
        Step::IConst(MTy::I64, 8),
        Step::IBin(IOp::Mul, 4, 5),
        Step::IConst(MTy::I64, 16),
        Step::IBin(IOp::Add, 6, 7),
        Step::Call("malloc", Regs::R1(8)),
        Step::Store(4, 9, 0),
        Step::Store(4, 9, 8),
        Step::IBin(IOp::Mul, 2, 5),
        Step::IBinImm(ImmOp::Add, 0, 16),
        Step::IBinImm(ImmOp::Add, 9, 16),
        Step::CallVoid("memcpy", Regs::R3(12, 11, 10)),
        Step::IBin(IOp::Add, 10, 7),
        Step::IBin(IOp::Add, 9, 13),
        Step::Store(1, 14, 0),
    ]
}

/// The string constants of built-in `list_push`.
pub open spec fn list_push_texts() -> Seq<&'static str> {
    Seq::empty()
}

fn list_push_recipe() -> (r: Recipe)
    ensures
        r.texts@ == list_push_texts(),
        r.steps@ == list_push_steps(),
        r.result == 9,
{
    Recipe {
        texts: Vec::new(),
        steps: vec![
            Step::Arg(0),
            Step::Arg(1),
            Step::Load(MTy::I64, 0, 0),
            Step::IConst(MTy::I64, 1),
            Step::IBin(IOp::Add, 2, 3),
            Step::IConst(MTy::I64, 8),
            Step::IBin(IOp::Mul, 4, 5),
            Step::IConst(MTy::I64, 16),
            Step::IBin(IOp::Add, 6, 7),
            Step::Call("malloc", Regs::R1(8)),
            Step::Store(4, 9, 0),
            Step::Store(4, 9, 8),
            Step::IBin(IOp::Mul, 2, 5),
            Step::IBinImm(ImmOp::Add, 0, 16),
            Step::IBinImm(ImmOp::Add, 9, 16),
            Step::CallVoid("memcpy", Regs::R3(12, 11, 10)),
            Step::IBin(IOp::Add, 10, 7),
            Step::IBin(IOp::Add, 9, 13),
            Step::Store(1, 14, 0),
        ],
        result: 9,
    }
}

/// The steps of built-in `list_concat`.
pub open spec fn list_concat_steps() -> Seq<Step> {
    seq![
        Step::Arg(0),
        Step::Arg(1),
        Step::Load(MTy::I64, 0, 0),
        Step::Load(MTy::I64, 1, 0),
        Step::IBin(IOp::Add, 2, 3),
        Step::IConst(MTy::I64, 8),
        Step::IBin(IOp::Mul, 4, 5),
        Step::IConst(MTy::I64, 16),
        Step::IBin(IOp::Add, 6, 7),
        Step::Call("malloc", Regs::R1(8)),
        Step::Store(4, 9, 0),
        Step::Store(4, 9, 8),
        Step::IBin(IOp::Mul, 2, 5),
        Step::IBinImm(ImmOp::Add, 0, 16),
        Step::IBinImm(ImmOp::Add, 9, 16),
        Step::CallVoid("memcpy", Regs::R3(12, 11, 10)),
        Step::IBin(IOp::Mul, 3, 5),
        Step::IBin(IOp::Add, 12, 10),
        Step::IBinImm(ImmOp::Add, 1, 16),
        Step::CallVoid("memcpy", Regs::R3(14, 15, 13)),
    ]
}

/// The string constants of built-in `list_concat`.
pub open spec fn list_concat_texts() -> Seq<&'static str> {
    Seq::empty()
}

fn list_concat_recipe() -> (r: Recipe)
    ensures
        r.texts@ == list_concat_texts(),
        r.steps@ == list_concat_steps(),
        r.result == 9,
{
    Recipe {
        texts: Vec::new(),
        steps: vec![
            Step::Arg(0),
            Step::Arg(1),
            Step::Load(MTy::I64, 0, 0),
            Step::Load(MTy::I64, 1, 0),
            Step::IBin(IOp::Add, 2, 3),
            Step::IConst(MTy::I64, 8),
            Step::IBin(IOp::Mul, 4, 5),
            Step::IConst(MTy::I64, 16),
            Step::IBin(IOp::Add, 6, 7),
            Step::Call("malloc", Regs::R1(8)),
            Step::Store(4, 9, 0),
            Step::Store(4, 9, 8),
            Step::IBin(IOp::Mul, 2, 5),
            Step::IBinImm(ImmOp::Add, 0, 16),
            Step::IBinImm(ImmOp::Add, 9, 16),
            Step::CallVoid("memcpy", Regs::R3(12, 11, 10)),
            Step::IBin(IOp::Mul, 3, 5),
            Step::IBin(IOp::Add, 12, 10),
            Step::IBinImm(ImmOp::Add, 1, 16),
            Step::CallVoid("memcpy", Regs::R3(14, 15, 13)),
        ],
        result: 9,
    }
}

/// The steps of built-in `list_contains`.
pub open spec fn list_contains_steps() -> Seq<Step> {
    seq![
        Step::Arg(0),
        Step::Arg(1),
        Step::Load(MTy::I64, 0, 0),
        Step::Block,
        Step::Block,
        Step::Block,
        Step::Param(2, MTy::I8),
        Step::IConst(MTy::I64, 0),
        Step::Jump(0, Regs::R1(4)),
        Step::Switch(0),
        Step::Param(0, MTy::I64),
        Step::ICmp(ICond::Slt, 5, 2),
        Step::IConst(MTy::I8, 0),
        Step::Brif(6, 1, Regs::R0, 2, Regs::R1(7)),
        Step::Switch(1),
        Step::Seal(1),
        Step::IBinImm(ImmOp::Mul, 5, 8),
        Step::IBinImm(ImmOp::Add, 8, 16),
        Step::IBin(IOp::Add, 0, 9),
        Step::Load(MTy::I64, 10, 0),
        Step::ICmp(ICond::Eq, 11, 1),
        Step::IConst(MTy::I8, 1),
        Step::IBinImm(ImmOp::Add, 5, 1),
        Step::Brif(12, 2, Regs::R1(13), 0, Regs::R1(14)),
        Step::Seal(0),
        Step::Seal(2),
        Step::Switch(2),
    ]
}

/// The string constants of built-in `list_contains`.
pub open spec fn list_contains_texts() -> Seq<&'static str> {
    Seq::empty()
}

fn list_contains_recipe() -> (r: Recipe)
    ensures
        r.texts@ == list_contains_texts(),
        r.steps@ == list_contains_steps(),
        r.result == 3,
{
    Recipe {
        texts: Vec::new(),
        steps: vec![
            Step::Arg(0),
            Step::Arg(1),
            Step::Load(MTy::I64, 0, 0),
            Step::Block,
            Step::Block,
            Step::Block,
            Step::Param(2, MTy::I8),
            Step::IConst(MTy::I64, 0),
            Step::Jump(0, Regs::R1(4)),
            Step::Switch(0),
            Step::Param(0, MTy::I64),
            Step::ICmp(ICond::Slt, 5, 2),
            Step::IConst(MTy::I8, 0),
            Step::Brif(6, 1, Regs::R0, 2, Regs::R1(7)),
            Step::Switch(1),
            Step::Seal(1),
            Step::IBinImm(ImmOp::Mul, 5, 8),
            Step::IBinImm(ImmOp::Add, 8, 16),
            Step::IBin(IOp::Add, 0, 9),
            Step::Load(MTy::I64, 10, 0),
            Step::ICmp(ICond::Eq, 11, 1),
            Step::IConst(MTy::I8, 1),
            Step::IBinImm(ImmOp::Add, 5, 1),
            Step::Brif(12, 2, Regs::R1(13), 0, Regs::R1(14)),
            Step::Seal(0),
            Step::Seal(2),
            Step::Switch(2),
        ],
        result: 3,
    }
}

/// The steps of built-in `list_map`.
pub open spec fn list_map_steps() -> Seq<Step> {
    seq![
        Step::Arg(0),
        Step::Arg(1),
        Step::Load(MTy::I64, 0, 0),
        Step::IConst(MTy::I64, 8),
        Step::IBin(IOp::Mul, 2, 3),
        Step::IConst(MTy::I64, 16),
        Step::IBin(IOp::Add, 4, 5),
        Step::Call("malloc", Regs::R1(6)),
        Step::Store(2, 7, 0),
        Step::Store(2, 7, 8),
        Step::Block,
        Step::Block,
        Step::Block,
        Step::Param(0, MTy::I64),
        Step::IConst(MTy::I64, 0),
        Step::Jump(0, Regs::R1(9)),
        Step::Switch(0),
        Step::Seal(0),
        Step::ICmp(ICond::Slt, 8, 2),
        Step::Brif(10, 1, Regs::R0, 2, Regs::R0),
        Step::Switch(1),
        Step::Seal(1),
        Step::IBin(IOp::Mul, 8, 3),
        Step::IBin(IOp::Add, 11, 5),
        Step::IBin(IOp::Add, 0, 12),
        Step::Load(MTy::I64, 13, 0),
        Step::CallIndirect(SigKind::Closure1, 1, Regs::R1(14)),
        Step::IBin(IOp::Add, 7, 12),
        Step::Store(15, 16, 0),
        Step::IConst(MTy::I64, 1),
        Step::IBin(IOp::Add, 8, 17),
        Step::Jump(0, Regs::R1(18)),
        Step::Switch(2),
        Step::Seal(2),
    ]
}

/// The string constants of built-in `list_map`.
pub open spec fn list_map_texts() -> Seq<&'static str> {
    Seq::empty()
}

fn list_map_recipe() -> (r: Recipe)
    ensures
        r.texts@ == list_map_texts(),
        r.steps@ == list_map_steps(),
        r.result == 7,
{
    Recipe {
        texts: Vec::new(),
        steps: vec![
            Step::Arg(0),
            Step::Arg(1),
            Step::Load(MTy::I64, 0, 0),
            Step::IConst(MTy::I64, 8),
            Step::IBin(IOp::Mul, 2, 3),
            Step::IConst(MTy::I64, 16),
            Step::IBin(IOp::Add, 4, 5),
            Step::Call("malloc", Regs::R1(6)),
            Step::Store(2, 7, 0),
            Step::Store(2, 7, 8),
            Step::Block,
            Step::Block,
            Step::Block,
            Step::Param(0, MTy::I64),
            Step::IConst(MTy::I64, 0),
            Step::Jump(0, Regs::R1(9)),
            Step::Switch(0),
            Step::Seal(0),
            Step::ICmp(ICond::Slt, 8, 2),
            Step::Brif(10, 1, Regs::R0, 2, Regs::R0),
            Step::Switch(1),
            Step::Seal(1),
            Step::IBin(IOp::Mul, 8, 3),
            Step::IBin(IOp::Add, 11, 5),
            Step::IBin(IOp::Add, 0, 12),
            Step::Load(MTy::I64, 13, 0),
            Step::CallIndirect(SigKind::Closure1, 1, Regs::R1(14)),
            Step::IBin(IOp::Add, 7, 12),
            Step::Store(15, 16, 0),
            Step::IConst(MTy::I64, 1),
            Step::IBin(IOp::Add, 8, 17),
            Step::Jump(0, Regs::R1(18)),
            Step::Switch(2),
            Step::Seal(2),
        ],
        result: 7,
    }
}

/// The steps of built-in `list_filter`.
pub open spec fn list_filter_steps() -> Seq<Step> {
    seq![
        Step::Arg(0),
        Step::Arg(1),
        Step::Load(MTy::I64, 0, 0),
        Step::IConst(MTy::I64, 8),
        Step::IBin(IOp::Mul, 2, 3),
        Step::IConst(MTy::I64, 16),
        Step::IBin(IOp::Add, 4, 5),
        Step::Call("malloc", Regs::R1(6)),
        Step::Block,
        Step::Block,
        Step::Block,
        Step::Block,
        Step::Block,
        Step::Param(0, MTy::I64),
        Step::Param(0, MTy::I64),
        Step::IConst(MTy::I64, 0),
        Step::IConst(MTy::I64, 0),
        Step::Jump(0, Regs::R2(10, 11)),
        Step::Switch(0),
        Step::Seal(0),
        Step::ICmp(ICond::Slt, 8, 2),
        Step::Brif(12, 1, Regs::R0, 2, Regs::R0),
        Step::Switch(1),
        Step::Seal(1),
        Step::IBin(IOp::Mul, 8, 3),
        Step::IBin(IOp::Add, 13, 5),
        Step::IBin(IOp::Add, 0, 14),
        Step::Load(MTy::I64, 15, 0),
        Step::CallIndirect(SigKind::Closure1, 1, Regs::R1(16)),
        Step::IConst(MTy::I64, 0),
        Step::ICmp(ICond::Ne, 17, 18),
        Step::Brif(19, 3, Regs::R0, 4, Regs::R0),
        Step::Switch(3),
        Step::Seal(3),
        Step::IBin(IOp::Mul, 9, 3),
        Step::IBin(IOp::Add, 20, 5),
        Step::IBin(IOp::Add, 7, 21),
        Step::Store(16, 22, 0),
        Step::IConst(MTy::I64, 1),
        Step::IBin(IOp::Add, 9, 23),
        Step::IBin(IOp::Add, 8, 23),
        Step::Jump(0, Regs::R2(25, 24)),
        Step::Switch(4),
        Step::Seal(4),
        Step::IConst(MTy::I64, 1),
        Step::IBin(IOp::Add, 8, 26),
        Step::Jump(0, Regs::R2(27, 9)),
        Step::Switch(2),
        Step::Seal(2),
        Step::Store(9, 7, 0),
        Step::Store(9, 7, 8),
    ]
}

/// The string constants of built-in `list_filter`.
pub open spec fn list_filter_texts() -> Seq<&'static str> {
    Seq::empty()
}

fn list_filter_recipe() -> (r: Recipe)
    ensures
        r.texts@ == list_filter_texts(),
        r.steps@ == list_filter_steps(),
        r.result == 7,
{
    Recipe {
        texts: Vec::new(),
        steps: vec![
            Step::Arg(0),
            Step::Arg(1),
            Step::Load(MTy::I64, 0, 0),
            Step::IConst(MTy::I64, 8),
            Step::IBin(IOp::Mul, 2, 3),
            Step::IConst(MTy::I64, 16),
            Step::IBin(IOp::Add, 4, 5),
            Step::Call("malloc", Regs::R1(6)),
            Step::Block,
            Step::Block,
            Step::Block,
            Step::Block,
            Step::Block,
            Step::Param(0, MTy::I64),
            Step::Param(0, MTy::I64),
            Step::IConst(MTy::I64, 0),
            Step::IConst(MTy::I64, 0),
            Step::Jump(0, Regs::R2(10, 11)),
            Step::Switch(0),
            Step::Seal(0),
            Step::ICmp(ICond::Slt, 8, 2),
            Step::Brif(12, 1, Regs::R0, 2, Regs::R0),
            Step::Switch(1),
            Step::Seal(1),
            Step::IBin(IOp::Mul, 8, 3),
            Step::IBin(IOp::Add, 13, 5),
            Step::IBin(IOp::Add, 0, 14),
            Step::Load(MTy::I64, 15, 0),
            Step::CallIndirect(SigKind::Closure1, 1, Regs::R1(16)),
            Step::IConst(MTy::I64, 0),
            Step::ICmp(ICond::Ne, 17, 18),
            Step::Brif(19, 3, Regs::R0, 4, Regs::R0),
            Step::Switch(3),
            Step::Seal(3),
            Step::IBin(IOp::Mul, 9, 3),
            Step::IBin(IOp::Add, 20, 5),
            Step::IBin(IOp::Add, 7, 21),
            Step::Store(16, 22, 0),
            Step::IConst(MTy::I64, 1),
            Step::IBin(IOp::Add, 9, 23),
            Step::IBin(IOp::Add, 8, 23),
            Step::Jump(0, Regs::R2(25, 24)),
            Step::Switch(4),
            Step::Seal(4),
            Step::IConst(MTy::I64, 1),
            Step::IBin(IOp::Add, 8, 26),
            Step::Jump(0, Regs::R2(27, 9)),
            Step::Switch(2),
            Step::Seal(2),
            Step::Store(9, 7, 0),
            Step::Store(9, 7, 8),
        ],
        result: 7,
    }
}

/// The steps of built-in `list_foreach`.
pub open spec fn list_foreach_steps() -> Seq<Step> {
    seq![
        Step::Arg(0),
        Step::Arg(1),
        Step::Load(MTy::I64, 0, 0),
        Step::IConst(MTy::I64, 8),
        Step::IConst(MTy::I64, 16),
        Step::Block,
        Step::Block,
        Step::Block,
        Step::Param(0, MTy::I64),
        Step::IConst(MTy::I64, 0),
        Step::Jump(0, Regs::R1(6)),
        Step::Switch(0),
        Step::Seal(0),
        Step::ICmp(ICond::Slt, 5, 2),
        Step::Brif(7, 1, Regs::R0, 2, Regs::R0),
        Step::Switch(1),
        Step::Seal(1),
        Step::IBin(IOp::Mul, 5, 3),
        Step::IBin(IOp::Add, 8, 4),
        Step::IBin(IOp::Add, 0, 9),
        Step::Load(MTy::I64, 10, 0),
        Step::CallIndirect(SigKind::Closure1, 1, Regs::R1(11)),
        Step::IConst(MTy::I64, 1),
        Step::IBin(IOp::Add, 5, 13),
        Step::Jump(0, Regs::R1(14)),
        Step::Switch(2),
        Step::Seal(2),
        Step::IConst(MTy::I64, 0),
    ]
}

/// The string constants of built-in `list_foreach`.
pub open spec fn list_foreach_texts() -> Seq<&'static str> {
    Seq::empty()
}

fn list_foreach_recipe() -> (r: Recipe)
    ensures
        r.texts@ == list_foreach_texts(),
        r.steps@ == list_foreach_steps(),
        r.result == 15,
{
    Recipe {
        texts: Vec::new(),
        steps: vec![
            Step::Arg(0),
            Step::Arg(1),
            Step::Load(MTy::I64, 0, 0),
            Step::IConst(MTy::I64, 8),
            Step::IConst(MTy::I64, 16),
            Step::Block,
            Step::Block,
            Step::Block,
            Step::Param(0, MTy::I64),
            Step::IConst(MTy::I64, 0),
            Step::Jump(0, Regs::R1(6)),
            Step::Switch(0),
            Step::Seal(0),
            Step::ICmp(ICond::Slt, 5, 2),
            Step::Brif(7, 1, Regs::R0, 2, Regs::R0),
            Step::Switch(1),
            Step::Seal(1),
            Step::IBin(IOp::Mul, 5, 3),
            Step::IBin(IOp::Add, 8, 4),
            Step::IBin(IOp::Add, 0, 9),
            Step::Load(MTy::I64, 10, 0),
            Step::CallIndirect(SigKind::Closure1, 1, Regs::R1(11)),
            Step::IConst(MTy::I64, 1),
            Step::IBin(IOp::Add, 5, 13),
            Step::Jump(0, Regs::R1(14)),
            Step::Switch(2),
            Step::Seal(2),
            Step::IConst(MTy::I64, 0),
        ],
        result: 15,
    }
}

/// The steps of built-in `list_fold`.
pub open spec fn list_fold_steps() -> Seq<Step> {
    seq![
        Step::Arg(0),
        Step::Arg(1),
        Step::Arg(2),
        Step::Load(MTy::I64, 0, 0),
        Step::IConst(MTy::I64, 8),
        Step::IConst(MTy::I64, 16),
        Step::Block,
        Step::Block,
        Step::Block,
        Step::Param(0, MTy::I64),
        Step::Param(0, MTy::I64),
        Step::IConst(MTy::I64, 0),
        Step::Jump(0, Regs::R2(8, 1)),
        Step::Switch(0),
        Step::Seal(0),
        Step::ICmp(ICond::Slt, 6, 3),
        Step::Brif(9, 1, Regs::R0, 2, Regs::R0),
        Step::Switch(1),
        Step::Seal(1),
        Step::IBin(IOp::Mul, 6, 4),
        Step::IBin(IOp::Add, 10, 5),
        Step::IBin(IOp::Add, 0, 11),
        Step::Load(MTy::I64, 12, 0),
        Step::CallIndirect(SigKind::Closure2, 2, Regs::R2(7, 13)),
        Step::IConst(MTy::I64, 1),
        Step::IBin(IOp::Add, 6, 15),
        Step::Jump(0, Regs::R2(16, 14)),
        Step::Switch(2),
        Step::Seal(2),
    ]
}

/// The string constants of built-in `list_fold`.
pub open spec fn list_fold_texts() -> Seq<&'static str> {
    Seq::empty()
}

fn list_fold_recipe() -> (r: Recipe)
    ensures
        r.texts@ == list_fold_texts(),
        r.steps@ == list_fold_steps(),
        r.result == 7,
{
    Recipe {
        texts: Vec::new(),
        steps: vec![
            Step::Arg(0),
            Step::Arg(1),
            Step::Arg(2),
            Step::Load(MTy::I64, 0, 0),
            Step::IConst(MTy::I64, 8),
            Step::IConst(MTy::I64, 16),
            Step::Block,
            Step::Block,
            Step::Block,
            Step::Param(0, MTy::I64),
            Step::Param(0, MTy::I64),
            Step::IConst(MTy::I64, 0),
            Step::Jump(0, Regs::R2(8, 1)),
            Step::Switch(0),
            Step::Seal(0),
            Step::ICmp(ICond::Slt, 6, 3),
            Step::Brif(9, 1, Regs::R0, 2, Regs::R0),
            Step::Switch(1),
            Step::Seal(1),
            Step::IBin(IOp::Mul, 6, 4),
            Step::IBin(IOp::Add, 10, 5),
            Step::IBin(IOp::Add, 0, 11),
            Step::Load(MTy::I64, 12, 0),
            Step::CallIndirect(SigKind::Closure2, 2, Regs::R2(7, 13)),
            Step::IConst(MTy::I64, 1),
            Step::IBin(IOp::Add, 6, 15),
            Step::Jump(0, Regs::R2(16, 14)),
            Step::Switch(2),
            Step::Seal(2),
        ],
        result: 7,
    }
}

/// The steps of built-in `list_any`.
pub open spec fn list_any_steps() -> Seq<Step> {
    seq![
        Step::Arg(0),
        Step::Arg(1),
        Step::Load(MTy::I64, 0, 0),
        Step::IConst(MTy::I64, 8),
        Step::IConst(MTy::I64, 16),
        Step::IConst(MTy::I64, 0),
        Step::Block,
        Step::Block,
        Step::Block,
        Step::Block,
        Step::Param(0, MTy::I64),
        Step::Param(3, MTy::I8),
        Step::Jump(0, Regs::R1(5)),
        Step::Switch(0),
        Step::Seal(0),
        Step::ICmp(ICond::Slt, 6, 2),
        Step::IConst(MTy::I8, 0),
        Step::Brif(8, 1, Regs::R0, 3, Regs::R1(9)),
        Step::Switch(1),
        Step::Seal(1),
        Step::IBin(IOp::Mul, 6, 3),
        Step::IBin(IOp::Add, 10, 4),
        Step::IBin(IOp::Add, 0, 11),
        Step::Load(MTy::I64, 12, 0),
        Step::CallIndirect(SigKind::Closure1, 1, Regs::R1(13)),
        Step::ICmp(ICond::Ne, 14, 5),
        Step::IConst(MTy::I64, 1),
        Step::IBin(IOp::Add, 6, 16),
        Step::Brif(15, 2, Regs::R0, 0, Regs::R1(17)),
        Step::Switch(2),
        Step::Seal(2),
        Step::IConst(MTy::I8, 1),
        Step::Jump(3, Regs::R1(18)),
        Step::Switch(3),
        Step::Seal(3),
    ]
}

/// The string constants of built-in `list_any`.
pub open spec fn list_any_texts() -> Seq<&'static str> {
    Seq::empty()
}

fn list_any_recipe() -> (r: Recipe)
    ensures
        r.texts@ == list_any_texts(),
        r.steps@ == list_any_steps(),
        r.result == 7,
{
    Recipe {
        texts: Vec::new(),
        steps: vec![
            Step::Arg(0),
            Step::Arg(1),
            Step::Load(MTy::I64, 0, 0),
            Step::IConst(MTy::I64, 8),
            Step::IConst(MTy::I64, 16),
            Step::IConst(MTy::I64, 0),
            Step::Block,
            Step::Block,
            Step::Block,
            Step::Block,
            Step::Param(0, MTy::I64),
            Step::Param(3, MTy::I8),
            Step::Jump(0, Regs::R1(5)),
            Step::Switch(0),
            Step::Seal(0),
            Step::ICmp(ICond::Slt, 6, 2),
            Step::IConst(MTy::I8, 0),
            Step::Brif(8, 1, Regs::R0, 3, Regs::R1(9)),
            Step::Switch(1),
            Step::Seal(1),
            Step::IBin(IOp::Mul, 6, 3),
            Step::IBin(IOp::Add, 10, 4),
            Step::IBin(IOp::Add, 0, 11),
            Step::Load(MTy::I64, 12, 0),
            Step::CallIndirect(SigKind::Closure1, 1, Regs::R1(13)),
            Step::ICmp(ICond::Ne, 14, 5),
            Step::IConst(MTy::I64, 1),
            Step::IBin(IOp::Add, 6, 16),
            Step::Brif(15, 2, Regs::R0, 0, Regs::R1(17)),
            Step::Switch(2),
            Step::Seal(2),
            Step::IConst(MTy::I8, 1),
            Step::Jump(3, Regs::R1(18)),
            Step::Switch(3),
            Step::Seal(3),
        ],
        result: 7,
    }
}

/// The steps of built-in `list_all`.
pub open spec fn list_all_steps() -> Seq<Step> {
    seq![
        Step::Arg(0),
        Step::Arg(1),
        Step::Load(MTy::I64, 0, 0),
        Step::IConst(MTy::I64, 8),
        Step::IConst(MTy::I64, 16),
        Step::IConst(MTy::I64, 0),
        Step::Block,
        Step::Block,
        Step::Block,
        Step::Block,
        Step::Param(0, MTy::I64),
        Step::Param(3, MTy::I8),
        Step::Jump(0, Regs::R1(5)),
        Step::Switch(0),
        Step::Seal(0),
        Step::ICmp(ICond::Slt, 6, 2),
        Step::IConst(MTy::I8, 1),
        Step::Brif(8, 1, Regs::R0, 3, Regs::R1(9)),
        Step::Switch(1),
        Step::Seal(1),
        Step::IBin(IOp::Mul, 6, 3),
        Step::IBin(IOp::Add, 10, 4),
        Step::IBin(IOp::Add, 0, 11),
        Step::Load(MTy::I64, 12, 0),
        Step::CallIndirect(SigKind::Closure1, 1, Regs::R1(13)),
        Step::ICmp(ICond::Ne, 14, 5),
        Step::IConst(MTy::I64, 1),
        Step::IBin(IOp::Add, 6, 16),
        Step::Brif(15, 0, Regs::R1(17), 2, Regs::R0),
        Step::Switch(2),
        Step::Seal(2),
        Step::IConst(MTy::I8, 0),
        Step::Jump(3, Regs::R1(18)),
        Step::Switch(3),
        Step::Seal(3),
    ]
}

/// The string constants of built-in `list_all`.
pub open spec fn list_all_texts() -> Seq<&'static str> {
    Seq::empty()
}

fn list_all_recipe() -> (r: Recipe)
    ensures
        r.texts@ == list_all_texts(),
        r.steps@ == list_all_steps(),
        r.result == 7,
{
    Recipe {
        texts: Vec::new(),
        steps: vec![
            Step::Arg(0),
            Step::Arg(1),
            Step::Load(MTy::I64, 0, 0),
            Step::IConst(MTy::I64, 8),
            Step::IConst(MTy::I64, 16),
            Step::IConst(MTy::I64, 0),
            Step::Block,
            Step::Block,
            Step::Block,
            Step::Block,
            Step::Param(0, MTy::I64),
            Step::Param(3, MTy::I8),
            Step::Jump(0, Regs::R1(5)),
            Step::Switch(0),
            Step::Seal(0),
            Step::ICmp(ICond::Slt, 6, 2),
            Step::IConst(MTy::I8, 1),
            Step::Brif(8, 1, Regs::R0, 3, Regs::R1(9)),
            Step::Switch(1),
            Step::Seal(1),
            Step::IBin(IOp::Mul, 6, 3),
            Step::IBin(IOp::Add, 10, 4),
            Step::IBin(IOp::Add, 0, 11),
            Step::Load(MTy::I64, 12, 0),
            Step::CallIndirect(SigKind::Closure1, 1, Regs::R1(13)),
            Step::ICmp(ICond::Ne, 14, 5),
            Step::IConst(MTy::I64, 1),
            Step::IBin(IOp::Add, 6, 16),
            Step::Brif(15, 0, Regs::R1(17), 2, Regs::R0),
            Step::Switch(2),
            Step::Seal(2),
            Step::IConst(MTy::I8, 0),
            Step::Jump(3, Regs::R1(18)),
            Step::Switch(3),
            Step::Seal(3),
        ],
        result: 7,
    }
}

/// The steps of built-in `list_find`.
pub open spec fn list_find_steps() -> Seq<Step> {
    seq![
        Step::Arg(0),
        Step::Arg(1),
        Step::Load(MTy::I64, 0, 0),
        Step::IConst(MTy::I64, 8),
        Step::IConst(MTy::I64, 16),
        Step::IConst(MTy::I64, 0),
        Step::Block,
        Step::Block,
        Step::Block,
        Step::Block,
        Step::Param(0, MTy::I64),
        Step::Param(3, MTy::I64),
        Step::Jump(0, Regs::R1(5)),
        Step::Switch(0),
        Step::Seal(0),
        Step::ICmp(ICond::Slt, 6, 2),
        Step::IConst(MTy::I64, 0),
        Step::Brif(8, 1, Regs::R0, 3, Regs::R1(9)),
        Step::Switch(1),
        Step::Seal(1),
        Step::IBin(IOp::Mul, 6, 3),
        Step::IBin(IOp::Add, 10, 4),
        Step::IBin(IOp::Add, 0, 11),
        Step::Load(MTy::I64, 12, 0),
        Step::CallIndirect(SigKind::Closure1, 1, Regs::R1(13)),
        Step::IConst(MTy::I64, 0),
        Step::ICmp(ICond::Ne, 14, 15),
        Step::IConst(MTy::I64, 1),
        Step::IBin(IOp::Add, 6, 17),
        Step::Brif(16, 2, Regs::R0, 0, Regs::R1(18)),
        Step::Switch(2),
        Step::Seal(2),
        Step::Jump(3, Regs::R1(13)),
        Step::Switch(3),
        Step::Seal(3),
    ]
}

/// The string constants of built-in `list_find`.
pub open spec fn list_find_texts() -> Seq<&'static str> {
    Seq::empty()
}

fn list_find_recipe() -> (r: Recipe)
    ensures
        r.texts@ == list_find_texts(),
        r.steps@ == list_find_steps(),
        r.result == 7,
{
    Recipe {
        texts: Vec::new(),
        steps: vec![
            Step::Arg(0),
            Step::Arg(1),
            Step::Load(MTy::I64, 0, 0),
            Step::IConst(MTy::I64, 8),
            Step::IConst(MTy::I64, 16),
            Step::IConst(MTy::I64, 0),
            Step::Block,
            Step::Block,
            Step::Block,
            Step::Block,
            Step::Param(0, MTy::I64),
            Step::Param(3, MTy::I64),
            Step::Jump(0, Regs::R1(5)),
            Step::Switch(0),
            Step::Seal(0),
            Step::ICmp(ICond::Slt, 6, 2),
            Step::IConst(MTy::I64, 0),
            Step::Brif(8, 1, Regs::R0, 3, Regs::R1(9)),
            Step::Switch(1),
            Step::Seal(1),
            Step::IBin(IOp::Mul, 6, 3),
            Step::IBin(IOp::Add, 10, 4),
            Step::IBin(IOp::Add, 0, 11),
            Step::Load(MTy::I64, 12, 0),
            Step::CallIndirect(SigKind::Closure1, 1, Regs::R1(13)),
            Step::IConst(MTy::I64, 0),
            Step::ICmp(ICond::Ne, 14, 15),
            Step::IConst(MTy::I64, 1),
            Step::IBin(IOp::Add, 6, 17),
            Step::Brif(16, 2, Regs::R0, 0, Regs::R1(18)),
            Step::Switch(2),
            Step::Seal(2),
            Step::Jump(3, Regs::R1(13)),
            Step::Switch(3),
            Step::Seal(3),
        ],
        result: 7,
    }
}

/// The steps of built-in `list_sort`.
pub open spec fn list_sort_steps() -> Seq<Step> {
    seq![
        Step::Arg(0),
        Step::Load(MTy::I64, 0, 0),
        Step::IConst(MTy::I64, 8),
        Step::IBin(IOp::Mul, 1, 2),
        Step::IConst(MTy::I64, 16),
        Step::IBin(IOp::Add, 3, 4),
        Step::Call("malloc", Regs::R1(5)),
        Step::Store(1, 6, 0),
        Step::Store(1, 6, 8),
        Step::IBinImm(ImmOp::Add, 0, 16),
        Step::IBinImm(ImmOp::Add, 6, 16),
        Step::CallVoid("memcpy", Regs::R3(8, 7, 3)),
        Step::Block,
        Step::Block,
        Step::Block,
        Step::Block,
        Step::Block,
        Step::Block,
        Step::IConst(MTy::I64, 0),
        Step::Jump(0, Regs::R1(9)),
        Step::Switch(0),
        Step::Param(0, MTy::I64),
        Step::IBinImm(ImmOp::Add, 1, -1i64),
        Step::ICmp(ICond::Slt, 10, 11),
        Step::Brif(12, 1, Regs::R0, 5, Regs::R0),
        Step::Switch(1),
        Step::Seal(1),
        Step::IBinImm(ImmOp::Add, 10, 1),
        Step::Jump(2, Regs::R2(13, 10)),
        Step::Switch(2),
        Step::Param(2, MTy::I64),
        Step::Param(2, MTy::I64),
        Step::ICmp(ICond::Slt, 14, 1),
        Step::Brif(16, 3, Regs::R0, 4, Regs::R1(15)),
        Step::Switch(3),
        Step::Seal(3),
        Step::IBinImm(ImmOp::Mul, 14, 8),
        Step::IBinImm(ImmOp::Add, 17, 16),
        Step::IBin(IOp::Add, 6, 18),
        Step::Load(MTy::I64, 19, 0),
        Step::IBinImm(ImmOp::Mul, 15, 8),
        Step::IBinImm(ImmOp::Add, 21, 16),
        Step::IBin(IOp::Add, 6, 22),
        Step::Load(MTy::I64, 23, 0),
        Step::ICmp(ICond::Slt, 20, 24),
        Step::Select(25, 14, 15),
        Step::IBinImm(ImmOp::Add, 14, 1),
        Step::Jump(2, Regs::R2(27, 26)),
        Step::Seal(2),
        Step::Seal(4),
        Step::Switch(4),
        Step::Param(4, MTy::I64),
        Step::IBinImm(ImmOp::Mul, 10, 8),
        Step::IBinImm(ImmOp::Add, 29, 16),
        Step::IBin(IOp::Add, 6, 30),
        Step::Load(MTy::I64, 31, 0),
        Step::IBinImm(ImmOp::Mul, 28, 8),
        Step::IBinImm(ImmOp::Add, 33, 16),
        Step::IBin(IOp::Add, 6, 34),
        Step::Load(MTy::I64, 35, 0),
        Step::Store(36, 31, 0),
        Step::Store(32, 35, 0),
        Step::IBinImm(ImmOp::Add, 10, 1),
        Step::Jump(0, Regs::R1(37)),
        Step::Seal(0),
        Step::Seal(5),
        Step::Switch(5),
    ]
}

/// The string constants of built-in `list_sort`.
pub open spec fn list_sort_texts() -> Seq<&'static str> {
    Seq::empty()
}

fn list_sort_recipe() -> (r: Recipe)
    ensures
        r.texts@ == list_sort_texts(),
        r.steps@ == list_sort_steps(),
        r.result == 6,
{
    Recipe {
        texts: Vec::new(),
        steps: vec![
            Step::Arg(0),
            Step::Load(MTy::I64, 0, 0),
            Step::IConst(MTy::I64, 8),
            Step::IBin(IOp::Mul, 1, 2),
            Step::IConst(MTy::I64, 16),
            Step::IBin(IOp::Add, 3, 4),
            Step::Call("malloc", Regs::R1(5)),
            Step::Store(1, 6, 0),
            Step::Store(1, 6, 8),
            Step::IBinImm(ImmOp::Add, 0, 16),
            Step::IBinImm(ImmOp::Add, 6, 16),
            Step::CallVoid("memcpy", Regs::R3(8, 7, 3)),
            Step::Block,
            Step::Block,
            Step::Block,
            Step::Block,
            Step::Block,
            Step::Block,
            Step::IConst(MTy::I64, 0),
            Step::Jump(0, Regs::R1(9)),
            Step::Switch(0),
            Step::Param(0, MTy::I64),
            Step::IBinImm(ImmOp::Add, 1, -1i64),
            Step::ICmp(ICond::Slt, 10, 11),
            Step::Brif(12, 1, Regs::R0, 5, Regs::R0),
            Step::Switch(1),
            Step::Seal(1),
            Step::IBinImm(ImmOp::Add, 10, 1),
            Step::Jump(2, Regs::R2(13, 10)),
            Step::Switch(2),
            Step::Param(2, MTy::I64),
            Step::Param(2, MTy::I64),
            Step::ICmp(ICond::Slt, 14, 1),
            Step::Brif(16, 3, Regs::R0, 4, Regs::R1(15)),
            Step::Switch(3),
            Step::Seal(3),
            Step::IBinImm(ImmOp::Mul, 14, 8),
            Step::IBinImm(ImmOp::Add, 17, 16),
            Step::IBin(IOp::Add, 6, 18),
            Step::Load(MTy::I64, 19, 0),
            Step::IBinImm(ImmOp::Mul, 15, 8),
            Step::IBinImm(ImmOp::Add, 21, 16),
            Step::IBin(IOp::Add, 6, 22),
            Step::Load(MTy::I64, 23, 0),
            Step::ICmp(ICond::Slt, 20, 24),
            Step::Select(25, 14, 15),
            Step::IBinImm(ImmOp::Add, 14, 1),
            Step::Jump(2, Regs::R2(27, 26)),
            Step::Seal(2),
            Step::Seal(4),
            Step::Switch(4),
            Step::Param(4, MTy::I64),
            Step::IBinImm(ImmOp::Mul, 10, 8),
            Step::IBinImm(ImmOp::Add, 29, 16),
            Step::IBin(IOp::Add, 6, 30),
            Step::Load(MTy::I64, 31, 0),
            Step::IBinImm(ImmOp::Mul, 28, 8),
            Step::IBinImm(ImmOp::Add, 33, 16),
            Step::IBin(IOp::Add, 6, 34),
            Step::Load(MTy::I64, 35, 0),
            Step::Store(36, 31, 0),
            Step::Store(32, 35, 0),
            Step::IBinImm(ImmOp::Add, 10, 1),
            Step::Jump(0, Regs::R1(37)),
            Step::Seal(0),
            Step::Seal(5),
            Step::Switch(5),
        ],
        result: 6,
    }
}

/// The steps of built-in `list_reverse`.
pub open spec fn list_reverse_steps() -> Seq<Step> {
    seq![
        Step::Arg(0),
        Step::Load(MTy::I64, 0, 0),
        Step::IConst(MTy::I64, 8),
        Step::IBin(IOp::Mul, 1, 2),
        Step::IConst(MTy::I64, 16),
        Step::IBin(IOp::Add, 3, 4),
        Step::Call("malloc", Regs::R1(5)),
        Step::Store(1, 6, 0),
        Step::Store(1, 6, 8),
        Step::Block,
        Step::Block,
        Step::Block,
        Step::IConst(MTy::I64, 0),
        Step::Jump(0, Regs::R1(7)),
        Step::Switch(0),
        Step::Param(0, MTy::I64),
        Step::ICmp(ICond::Slt, 8, 1),
        Step::Brif(9, 1, Regs::R0, 2, Regs::R0),
        Step::Switch(1),
        Step::Seal(1),
        Step::IBinImm(ImmOp::Add, 1, -1i64),
        Step::IBin(IOp::Sub, 10, 8),
        Step::IBinImm(ImmOp::Mul, 11, 8),
        Step::IBinImm(ImmOp::Add, 12, 16),
        Step::IBin(IOp::Add, 0, 13),
        Step::Load(MTy::I64, 14, 0),
        Step::IBinImm(ImmOp::Mul, 8, 8),
        Step::IBinImm(ImmOp::Add, 16, 16),
        Step::IBin(IOp::Add, 6, 17),
        Step::Store(15, 18, 0),
        Step::IBinImm(ImmOp::Add, 8, 1),
        Step::Jump(0, Regs::R1(19)),
        Step::Seal(0),
        Step::Seal(2),
        Step::Switch(2),
    ]
}

/// The string constants of built-in `list_reverse`.
pub open spec fn list_reverse_texts() -> Seq<&'static str> {
    Seq::empty()
}

fn list_reverse_recipe() -> (r: Recipe)
    ensures
        r.texts@ == list_reverse_texts(),
        r.steps@ == list_reverse_steps(),
        r.result == 6,
{
    Recipe {
        texts: Vec::new(),
        steps: vec![
            Step::Arg(0),
            Step::Load(MTy::I64, 0, 0),
            Step::IConst(MTy::I64, 8),
            Step::IBin(IOp::Mul, 1, 2),
            Step::IConst(MTy::I64, 16),
            Step::IBin(IOp::Add, 3, 4),
            Step::Call("malloc", Regs::R1(5)),
            Step::Store(1, 6, 0),
            Step::Store(1, 6, 8),
            Step::Block,
            Step::Block,
            Step::Block,
            Step::IConst(MTy::I64, 0),
            Step::Jump(0, Regs::R1(7)),
            Step::Switch(0),
            Step::Param(0, MTy::I64),
            Step::ICmp(ICond::Slt, 8, 1),
            Step::Brif(9, 1, Regs::R0, 2, Regs::R0),
            Step::Switch(1),
            Step::Seal(1),
            Step::IBinImm(ImmOp::Add, 1, -1i64),
            Step::IBin(IOp::Sub, 10, 8),
            Step::IBinImm(ImmOp::Mul, 11, 8),
            Step::IBinImm(ImmOp::Add, 12, 16),
            Step::IBin(IOp::Add, 0, 13),
            Step::Load(MTy::I64, 14, 0),
            Step::IBinImm(ImmOp::Mul, 8, 8),
            Step::IBinImm(ImmOp::Add, 16, 16),
            Step::IBin(IOp::Add, 6, 17),
            Step::Store(15, 18, 0),
            Step::IBinImm(ImmOp::Add, 8, 1),
            Step::Jump(0, Regs::R1(19)),
            Step::Seal(0),
            Step::Seal(2),
            Step::Switch(2),
        ],
        result: 6,
    }
}

/// Recipes, part 1 of 5.
pub open spec fn recipe_of_0(name: Seq<char>) -> Option<(Seq<&'static str>, Seq<Step>, usize)> {
    if name == "print_int"@ {
        Some((print_int_texts(), print_int_steps(), 2usize))
    } else if name == "print_float"@ {
        Some((print_float_texts(), print_float_steps(), 3usize))
    } else if name == "print_bool"@ {
        Some((print_bool_texts(), print_bool_steps(), 6usize))
    } else if name == "print"@ {
        Some((print_texts(), print_steps(), 2usize))
    } else if name == "abs"@ {
        Some((abs_texts(), abs_steps(), 4usize))
    } else if name == "min"@ {
        Some((min_texts(), min_steps(), 3usize))
    } else if name == "max"@ {
        Some((max_texts(), max_steps(), 3usize))
    } else if name == "mod_int"@ {
        Some((mod_int_texts(), mod_int_steps(), 4usize))
    } else if name == "int_to_string"@ {
        Some((int_to_string_texts(), int_to_string_steps(), 1usize))
    } else if name == "string_concat"@ {
        Some((string_concat_texts(), string_concat_steps(), 7usize))
    } else if name == "string_contains"@ {
        Some((string_contains_texts(), string_contains_steps(), 4usize))
    } else if name == "string_starts_with"@ {
        Some((string_starts_with_texts(), string_starts_with_steps(), 5usize))
    } else {
        recipe_of_1(name)
    }
}

/// Recipes, part 2 of 5.
pub open spec fn recipe_of_1(name: Seq<char>) -> Option<(Seq<&'static str>, Seq<Step>, usize)> {
    if name == "string_eq"@ {
        Some((string_eq_texts(), string_eq_steps(), 4usize))
    } else if name == "string_ends_with"@ {
        Some((string_ends_with_texts(), string_ends_with_steps(), 8usize))
    } else if name == "string_substring"@ {
        Some((string_substring_texts(), string_substring_steps(), 6usize))
    } else if name == "string_to_upper"@ {
        Some((string_to_upper_texts(), string_to_upper_steps(), 4usize))
    } else if name == "string_to_lower"@ {
        Some((string_to_lower_texts(), string_to_lower_steps(), 4usize))
    } else if name == "string_replace"@ {
        Some((string_replace_texts(), string_replace_steps(), 8usize))
    } else if name == "string_index_of"@ {
        Some((string_index_of_texts(), string_index_of_steps(), 7usize))
    } else if name == "string_char_at"@ {
        Some((string_char_at_texts(), string_char_at_steps(), 3usize))
    } else if name == "string_char_code_at"@ {
        Some((string_char_code_at_texts(), string_char_code_at_steps(), 8usize))
    } else if name == "float_to_int"@ {
        Some((float_to_int_texts(), float_to_int_steps(), 1usize))
    } else if name == "int_to_float"@ {
        Some((int_to_float_texts(), int_to_float_steps(), 1usize))
    } else if name == "pow"@ {
        Some((pow_texts(), pow_steps(), 3usize))
    } else {
        recipe_of_2(name)
    }
}

/// Recipes, part 3 of 5.
pub open spec fn recipe_of_2(name: Seq<char>) -> Option<(Seq<&'static str>, Seq<Step>, usize)> {
    if name == "float_abs"@ {
        Some((float_abs_texts(), float_abs_steps(), 1usize))
    } else if name == "float_sqrt"@ {
        Some((float_sqrt_texts(), float_sqrt_steps(), 1usize))
    } else if name == "float_to_string"@ {
        Some((float_to_string_texts(), float_to_string_steps(), 1usize))
    } else if name == "bool_to_string"@ {
        Some((bool_to_string_texts(), bool_to_string_steps(), 3usize))
    } else if name == "json_get"@ {
        Some((json_get_texts(), json_get_steps(), 5usize))
    } else if name == "json_array_get"@ {
        Some((json_array_get_texts(), json_array_get_steps(), 5usize))
    } else if name == "map_get"@ {
        Some((map_get_texts(), map_get_steps(), 5usize))
    } else if name == "json_parse"@ {
        Some((json_parse_texts(), json_parse_steps(), 6usize))
    } else if name == "exit"@ {
        Some((exit_texts(), exit_steps(), 2usize))
    } else if name == "__gradient_contract_fail"@ {
        Some((gradient_contract_fail_texts(), gradient_contract_fail_steps(), 2usize))
    } else if name == "list_length"@ {
        Some((list_length_texts(), list_length_steps(), 1usize))
    } else if name == "list_get"@ {
        Some((list_get_texts(), list_get_steps(), 7usize))
    } else {
        recipe_of_3(name)
    }
}

/// Recipes, part 4 of 5.
pub open spec fn recipe_of_3(name: Seq<char>) -> Option<(Seq<&'static str>, Seq<Step>, usize)> {
    if name == "list_is_empty"@ {
        Some((list_is_empty_texts(), list_is_empty_steps(), 3usize))
    } else if name == "list_head"@ {
        Some((list_head_texts(), list_head_steps(), 1usize))
    } else if name == "list_tail"@ {
        Some((list_tail_texts(), list_tail_steps(), 8usize))
    } else if name == "list_push"@ {
        Some((list_push_texts(), list_push_steps(), 9usize))
    } else if name == "list_concat"@ {
        Some((list_concat_texts(), list_concat_steps(), 9usize))
    } else if name == "list_contains"@ {
        Some((list_contains_texts(), list_contains_steps(), 3usize))
    } else if name == "list_map"@ {
        Some((list_map_texts(), list_map_steps(), 7usize))
    } else if name == "list_filter"@ {
        Some((list_filter_texts(), list_filter_steps(), 7usize))
    } else if name == "list_foreach"@ {
        Some((list_foreach_texts(), list_foreach_steps(), 15usize))
    } else if name == "list_fold"@ {
        Some((list_fold_texts(), list_fold_steps(), 7usize))
    } else if name == "list_any"@ {
        Some((list_any_texts(), list_any_steps(), 7usize))
    } else if name == "list_all"@ {
        Some((list_all_texts(), list_all_steps(), 7usize))
    } else {
        recipe_of_4(name)
    }
}

/// Recipes, part 5 of 5.
pub open spec fn recipe_of_4(name: Seq<char>) -> Option<(Seq<&'static str>, Seq<Step>, usize)> {
    if name == "list_find"@ {
        Some((list_find_texts(), list_find_steps(), 7usize))
    } else if name == "list_sort"@ {
        Some((list_sort_texts(), list_sort_steps(), 6usize))
    } else if name == "list_reverse"@ {
        Some((list_reverse_texts(), list_reverse_steps(), 6usize))
    } else {
        None
    }
}

fn recipe_for_0(name: &str) -> (r: Option<Recipe>)
    ensures
        match r {
            Some(rc) => recipe_of_0(name@) == Some((rc.texts@, rc.steps@, rc.result)),
            None => recipe_of_0(name@) is None,
        },
{
    if str_eq(name, "print_int") {
        Some(print_int_recipe())
    } else if str_eq(name, "print_float") {
        Some(print_float_recipe())
    } else if str_eq(name, "print_bool") {
        Some(print_bool_recipe())
    } else if str_eq(name, "print") {
        Some(print_recipe())
    } else if str_eq(name, "abs") {
        Some(abs_recipe())
    } else if str_eq(name, "min") {
        Some(min_recipe())
    } else if str_eq(name, "max") {
        Some(max_recipe())
    } else if str_eq(name, "mod_int") {
        Some(mod_int_recipe())
    } else if str_eq(name, "int_to_string") {
        Some(int_to_string_recipe())
    } else if str_eq(name, "string_concat") {
        Some(string_concat_recipe())
    } else if str_eq(name, "string_contains") {
        Some(string_contains_recipe())
    } else if str_eq(name, "string_starts_with") {
        Some(string_starts_with_recipe())
    } else {
        recipe_for_1(name)
    }
}

fn recipe_for_1(name: &str) -> (r: Option<Recipe>)
    ensures
        match r {
            Some(rc) => recipe_of_1(name@) == Some((rc.texts@, rc.steps@, rc.result)),
            None => recipe_of_1(name@) is None,
        },
{
    if str_eq(name, "string_eq") {
        Some(string_eq_recipe())
    } else if str_eq(name, "string_ends_with") {
        Some(string_ends_with_recipe())
    } else if str_eq(name, "string_substring") {
        Some(string_substring_recipe())
    } else if str_eq(name, "string_to_upper") {
        Some(string_to_upper_recipe())
    } else if str_eq(name, "string_to_lower") {
        Some(string_to_lower_recipe())
    } else if str_eq(name, "string_replace") {
        Some(string_replace_recipe())
    } else if str_eq(name, "string_index_of") {
        Some(string_index_of_recipe())
    } else if str_eq(name, "string_char_at") {
        Some(string_char_at_recipe())
    } else if str_eq(name, "string_char_code_at") {
        Some(string_char_code_at_recipe())
    } else if str_eq(name, "float_to_int") {
        Some(float_to_int_recipe())
    } else if str_eq(name, "int_to_float") {
        Some(int_to_float_recipe())
    } else if str_eq(name, "pow") {
        Some(pow_recipe())
    } else {
        recipe_for_2(name)
    }
}

fn recipe_for_2(name: &str) -> (r: Option<Recipe>)
    ensures
        match r {
            Some(rc) => recipe_of_2(name@) == Some((rc.texts@, rc.steps@, rc.result)),
            None => recipe_of_2(name@) is None,
        },
{
    if str_eq(name, "float_abs") {
        Some(float_abs_recipe())
    } else if str_eq(name, "float_sqrt") {
        Some(float_sqrt_recipe())
    } else if str_eq(name, "float_to_string") {
        Some(float_to_string_recipe())
    } else if str_eq(name, "bool_to_string") {
        Some(bool_to_string_recipe())
    } else if str_eq(name, "json_get") {
        Some(json_get_recipe())
    } else if str_eq(name, "json_array_get") {
        Some(json_array_get_recipe())
    } else if str_eq(name, "map_get") {
        Some(map_get_recipe())
    } else if str_eq(name, "json_parse") {
        Some(json_parse_recipe())
    } else if str_eq(name, "exit") {
        Some(exit_recipe())
    } else if str_eq(name, "__gradient_contract_fail") {
        Some(gradient_contract_fail_recipe())
    } else if str_eq(name, "list_length") {
        Some(list_length_recipe())
    } else if str_eq(name, "list_get") {
        Some(list_get_recipe())
    } else {
        recipe_for_3(name)
    }
}

fn recipe_for_3(name: &str) -> (r: Option<Recipe>)
    ensures
        match r {
            Some(rc) => recipe_of_3(name@) == Some((rc.texts@, rc.steps@, rc.result)),
            None => recipe_of_3(name@) is None,
        },
{
    if str_eq(name, "list_is_empty") {
        Some(list_is_empty_recipe())
    } else if str_eq(name, "list_head") {
        Some(list_head_recipe())
    } else if str_eq(name, "list_tail") {
        Some(list_tail_recipe())
    } else if str_eq(name, "list_push") {
        Some(list_push_recipe())
    } else if str_eq(name, "list_concat") {
        Some(list_concat_recipe())
    } else if str_eq(name, "list_contains") {
        Some(list_contains_recipe())
    } else if str_eq(name, "list_map") {
        Some(list_map_recipe())
    } else if str_eq(name, "list_filter") {
        Some(list_filter_recipe())
    } else if str_eq(name, "list_foreach") {
        Some(list_foreach_recipe())
    } else if str_eq(name, "list_fold") {
        Some(list_fold_recipe())
    } else if str_eq(name, "list_any") {
        Some(list_any_recipe())
    } else if str_eq(name, "list_all") {
        Some(list_all_recipe())
    } else {
        recipe_for_4(name)
    }
}

fn recipe_for_4(name: &str) -> (r: Option<Recipe>)
    ensures
        match r {
            Some(rc) => recipe_of_4(name@) == Some((rc.texts@, rc.steps@, rc.result)),
            None => recipe_of_4(name@) is None,
        },
{
    if str_eq(name, "list_find") {
        Some(list_find_recipe())
    } else if str_eq(name, "list_sort") {
        Some(list_sort_recipe())
    } else if str_eq(name, "list_reverse") {
        Some(list_reverse_recipe())
    } else {
        None
    }
}

/// The recipe of built-in `name`, if it has one: its strings, its steps and
/// its result register.
pub open spec fn recipe_of(name: Seq<char>) -> Option<(Seq<&'static str>, Seq<Step>, usize)> {
    recipe_of_0(name)
}

/// The recipe of built-in `name`, if it has one.
pub fn recipe_for(name: &str) -> (r: Option<Recipe>)
    ensures
        match r {
            Some(rc) => recipe_of(name@) == Some((rc.texts@, rc.steps@, rc.result)),
            None => recipe_of(name@) is None,
        },
{
    recipe_for_0(name)
}

} // verus!
