use gradient_codegen::backend::CodegenBackend;
use gradient_codegen::ir::{BasicBlock, BlockRef, CmpOp, FuncRef, Function, Instruction, Literal, Module, Type, Value};
use gradient_codegen::llemit::LTy;
use gradient_codegen::llvm::inst::live_phi_entries;
use gradient_codegen::llvm::{ir_type_to_llvm, pass_pipeline, type_alignment, LlvmCodegen, LlvmOptLevel};
use inkwell::context::Context;
use std::collections::HashMap;

fn create_empty_module(name: &str) -> Module {
    Module { name: name.to_string(), functions: vec![], func_refs: HashMap::new() }
}

fn one_function_module(func: Function, func_refs: HashMap<u32, String>) -> Module {
    Module { name: "test".to_string(), functions: vec![func], func_refs }
}

fn function(name: &str, params: Vec<Type>, ret: Type, blocks: Vec<BasicBlock>, value_types: HashMap<u32, Type>) -> Function {
    Function {
        name: name.to_string(),
        params,
        return_type: ret,
        blocks,
        value_types,
        is_export: true,
        extern_lib: None,
    }
}

#[test]
fn test_llvm_backend_creation() {
    let context = Context::create();
    let backend = LlvmCodegen::new(&context);
    assert!(backend.is_ok());
}

#[test]
fn test_llvm_backend_name() {
    let context = Context::create();
    let backend = LlvmCodegen::new(&context).unwrap();
    assert_eq!(<LlvmCodegen as CodegenBackend>::name(&backend), "llvm");
}

#[test]
fn test_llvm_type_conversion() {
    assert_eq!(ir_type_to_llvm(&Type::I32).bit_width(), Some(32));
    assert_eq!(ir_type_to_llvm(&Type::I64).bit_width(), Some(64));
    assert!(ir_type_to_llvm(&Type::F64).is_float_type());
    assert!(ir_type_to_llvm(&Type::Ptr).is_pointer_type());
}

#[test]
fn test_type_alignment() {
    assert_eq!(type_alignment(&Type::I32), 4);
    assert_eq!(type_alignment(&Type::I64), 8);
    assert_eq!(type_alignment(&Type::F64), 8);
    assert_eq!(type_alignment(&Type::Ptr), 8);
    assert_eq!(type_alignment(&Type::Bool), 1);
}

#[test]
fn test_compile_empty_module() {
    let context = Context::create();
    let mut backend = LlvmCodegen::new(&context).unwrap();
    let module = create_empty_module("test");
    let result = backend.compile_module(&module);
    assert!(result.is_ok());
}

#[test]
fn test_compile_simple_function() {
    let context = Context::create();
    let mut backend = LlvmCodegen::new(&context).unwrap();
    let mut value_types = HashMap::new();
    value_types.insert(0, Type::I64);
    value_types.insert(1, Type::I64);
    let func = function(
        "add",
        vec![Type::I64, Type::I64],
        Type::I64,
        vec![BasicBlock {
            label: BlockRef(0),
            instructions: vec![Instruction::Add(Value(2), Value(0), Value(1)), Instruction::Ret(Some(Value(2)))],
        }],
        value_types,
    );
    let module = one_function_module(func, HashMap::new());
    let result = backend.compile_module(&module);
    assert!(result.is_ok());
    let ir_str = backend.print_to_string_for_test();
    assert!(ir_str.contains("add"));
    assert!(ir_str.contains("define"));
}

#[test]
fn test_alloca_store_load() {
    let context = Context::create();
    let mut codegen = LlvmCodegen::new(&context).unwrap();
    let mut value_types = HashMap::new();
    value_types.insert(0, Type::I64);
    value_types.insert(1, Type::I64);
    value_types.insert(2, Type::I64);
    let func = function(
        "test_alloca",
        vec![],
        Type::I64,
        vec![BasicBlock {
            label: BlockRef(0),
            instructions: vec![
                Instruction::Alloca(Value(0), Type::I64),
                Instruction::Const(Value(1), Literal::Int(42)),
                Instruction::Store(Value(1), Value(0)),
                Instruction::Load(Value(2), Value(0)),
                Instruction::Ret(Some(Value(2))),
            ],
        }],
        value_types,
    );
    let module = one_function_module(func, HashMap::new());
    let result = codegen.compile_module(&module);
    assert!(result.is_ok());
    let ir_str = codegen.print_to_string_for_test();
    assert!(ir_str.contains("alloca"));
    assert!(ir_str.contains("store"));
    assert!(ir_str.contains("load"));
    assert!(ir_str.contains("align 8"));
}

#[test]
fn test_string_constant() {
    let context = Context::create();
    let mut codegen = LlvmCodegen::new(&context).unwrap();
    let mut value_types = HashMap::new();
    value_types.insert(0, Type::Ptr);
    value_types.insert(1, Type::Ptr);
    let func = function(
        "test_string",
        vec![],
        Type::Ptr,
        vec![BasicBlock {
            label: BlockRef(0),
            instructions: vec![
                Instruction::Const(Value(0), Literal::Str("hello".to_string())),
                Instruction::Ret(Some(Value(0))),
            ],
        }],
        value_types,
    );
    let module = one_function_module(func, HashMap::new());
    let result = codegen.compile_module(&module);
    assert!(result.is_ok());
    let ir_str = codegen.print_to_string_for_test();
    assert!(ir_str.contains("hello"));
    assert!(ir_str.contains("constant"));
}

#[test]
fn test_branch_instruction() {
    let context = Context::create();
    let mut backend = LlvmCodegen::new(&context).unwrap();
    let mut value_types = HashMap::new();
    value_types.insert(0, Type::I64);
    value_types.insert(1, Type::Bool);
    value_types.insert(2, Type::I64);
    value_types.insert(3, Type::I64);
    let func = function(
        "branch_test",
        vec![Type::I64],
        Type::I64,
        vec![
            BasicBlock {
                label: BlockRef(0),
                instructions: vec![
                    Instruction::Cmp(Value(1), CmpOp::Gt, Value(0), Value(0)),
                    Instruction::Branch(Value(1), BlockRef(1), BlockRef(2)),
                ],
            },
            BasicBlock {
                label: BlockRef(1),
                instructions: vec![Instruction::Const(Value(2), Literal::Int(42)), Instruction::Ret(Some(Value(2)))],
            },
            BasicBlock {
                label: BlockRef(2),
                instructions: vec![Instruction::Const(Value(3), Literal::Int(0)), Instruction::Ret(Some(Value(3)))],
            },
        ],
        value_types,
    );
    let module = one_function_module(func, HashMap::new());
    let result = backend.compile_module(&module);
    assert!(result.is_ok());
    let ir_str = backend.print_to_string_for_test();
    assert!(ir_str.contains("br i1"));
    assert!(ir_str.contains("block.1"));
    assert!(ir_str.contains("block.2"));
}

#[test]
fn test_phi_node() {
    let context = Context::create();
    let mut backend = LlvmCodegen::new(&context).unwrap();
    let mut value_types = HashMap::new();
    value_types.insert(0, Type::I64);
    value_types.insert(1, Type::I64);
    value_types.insert(2, Type::I64);
    let func = function(
        "phi_test",
        vec![Type::I64],
        Type::I64,
        vec![
            BasicBlock {
                label: BlockRef(0),
                instructions: vec![Instruction::Const(Value(1), Literal::Int(10)), Instruction::Jump(BlockRef(1))],
            },
            BasicBlock {
                label: BlockRef(1),
                instructions: vec![
                    Instruction::Phi(Value(2), vec![(BlockRef(0), Value(1))]),
                    Instruction::Ret(Some(Value(2))),
                ],
            },
        ],
        value_types,
    );
    let module = one_function_module(func, HashMap::new());
    let result = backend.compile_module(&module);
    assert!(result.is_ok());
    let ir_str = backend.print_to_string_for_test();
    assert!(ir_str.contains("phi"));
}

#[test]
fn test_llvm_opt_levels() {
    let context = Context::create();
    let backend_none = LlvmCodegen::new_with_opt_level(&context, LlvmOptLevel::NoOpt);
    assert!(backend_none.is_ok());
    assert_eq!(backend_none.unwrap().optimization_level(), LlvmOptLevel::NoOpt);
    let backend_less = LlvmCodegen::new_with_opt_level(&context, LlvmOptLevel::Less);
    assert!(backend_less.is_ok());
    assert_eq!(backend_less.unwrap().optimization_level(), LlvmOptLevel::Less);
    let backend_default = LlvmCodegen::new_with_opt_level(&context, LlvmOptLevel::Default);
    assert!(backend_default.is_ok());
    assert_eq!(backend_default.unwrap().optimization_level(), LlvmOptLevel::Default);
    let backend_aggressive = LlvmCodegen::new_with_opt_level(&context, LlvmOptLevel::Aggressive);
    assert!(backend_aggressive.is_ok());
    assert_eq!(backend_aggressive.unwrap().optimization_level(), LlvmOptLevel::Aggressive);
}

#[test]
fn test_llvm_release_and_debug_constructors() {
    let context = Context::create();
    let release = LlvmCodegen::new_release(&context);
    assert!(release.is_ok());
    assert_eq!(release.unwrap().optimization_level(), LlvmOptLevel::Aggressive);
    let debug = LlvmCodegen::new_debug(&context);
    assert!(debug.is_ok());
    assert_eq!(debug.unwrap().optimization_level(), LlvmOptLevel::NoOpt);
}

#[test]
fn test_emit_bytes_simple_function() {
    let context = Context::create();
    let mut backend = LlvmCodegen::new(&context).unwrap();
    let mut value_types = HashMap::new();
    value_types.insert(0, Type::I64);
    value_types.insert(1, Type::I64);
    value_types.insert(2, Type::I64);
    let func = function(
        "emit_test",
        vec![Type::I64, Type::I64],
        Type::I64,
        vec![BasicBlock {
            label: BlockRef(0),
            instructions: vec![Instruction::Add(Value(2), Value(0), Value(1)), Instruction::Ret(Some(Value(2)))],
        }],
        value_types,
    );
    let module = one_function_module(func, HashMap::new());
    let result = backend.compile_module(&module);
    assert!(result.is_ok());
    let bytes = backend.emit_bytes();
    assert!(bytes.is_ok());
    let obj_bytes = bytes.unwrap();
    assert!(!obj_bytes.is_empty());
    let _has_valid_header = obj_bytes.starts_with(b"\x7fELF")
        || obj_bytes.starts_with(&[0xcf, 0xfa, 0xed, 0xfe])
        || obj_bytes.starts_with(&[0xce, 0xfa, 0xed, 0xfe])
        || obj_bytes.starts_with(b"MZ");
    assert!(!obj_bytes.is_empty(), "Object file should not be empty");
}

#[test]
fn test_emit_bytes_with_optimization() {
    let context = Context::create();
    let mut backend = LlvmCodegen::new_release(&context).unwrap();
    let mut value_types = HashMap::new();
    value_types.insert(0, Type::I64);
    value_types.insert(1, Type::I64);
    let func = function(
        "opt_test",
        vec![Type::I64],
        Type::I64,
        vec![BasicBlock {
            label: BlockRef(0),
            instructions: vec![Instruction::Const(Value(1), Literal::Int(42)), Instruction::Ret(Some(Value(1)))],
        }],
        value_types,
    );
    let module = one_function_module(func, HashMap::new());
    backend.compile_module(&module).unwrap();
    let bytes = backend.emit_bytes();
    assert!(bytes.is_ok());
    assert!(!bytes.unwrap().is_empty());
}

#[test]
fn test_target_triple() {
    let context = Context::create();
    let backend = LlvmCodegen::new(&context).unwrap();
    let triple = backend.target_triple();
    assert!(!triple.is_empty());
    assert!(
        triple.contains("x86_64")
            || triple.contains("aarch64")
            || triple.contains("i386")
            || triple.contains("arm"),
        "Target triple should contain architecture: {}",
        triple
    );
}

#[test]
fn empty_module_emits_object_bytes() {
    let context = Context::create();
    let backend = LlvmCodegen::new_release(&context).unwrap();
    let bytes = backend.emit_bytes().unwrap();
    assert!(bytes.starts_with(b"\x7fELF"));
}

#[test]
fn opt_level_pipelines() {
    assert_eq!(pass_pipeline(LlvmOptLevel::NoOpt), None);
    assert_eq!(pass_pipeline(LlvmOptLevel::Less), Some("default<O1>"));
    assert_eq!(pass_pipeline(LlvmOptLevel::Default), Some("default<O2>"));
    assert_eq!(pass_pipeline(LlvmOptLevel::Aggressive), Some("default<O3>"));
    assert_eq!(LlvmOptLevel::default(), LlvmOptLevel::Default);
}

#[test]
fn llvm_bool_and_void_map_to_i8() {
    assert_eq!(ir_type_to_llvm(&Type::Bool), LTy::I8);
    assert_eq!(ir_type_to_llvm(&Type::Void), LTy::I8);
    assert_eq!(LTy::F64.bit_width(), None);
    assert_eq!(LTy::Ptr.bit_width(), None);
}

fn builtin_module(callee: &str, args: Vec<Value>, arg_consts: Vec<(Value, Literal)>, value_types: HashMap<u32, Type>) -> Module {
    let mut insts: Vec<Instruction> = arg_consts.into_iter().map(|(v, l)| Instruction::Const(v, l)).collect();
    insts.push(Instruction::Call(Value(90), FuncRef(0), args));
    insts.push(Instruction::Ret(None));
    let func = Function {
        name: "main".to_string(),
        params: vec![],
        return_type: Type::Void,
        blocks: vec![BasicBlock { label: BlockRef(0), instructions: insts }],
        value_types,
        is_export: false,
        extern_lib: None,
    };
    let mut refs = HashMap::new();
    refs.insert(0, callee.to_string());
    one_function_module(func, refs)
}

#[test]
fn llvm_print_int_calls_printf() {
    let context = Context::create();
    let mut cg = LlvmCodegen::new(&context).unwrap();
    let m = builtin_module("print_int", vec![Value(1)], vec![(Value(1), Literal::Int(7))], HashMap::new());
    cg.compile_module(&m).unwrap();
    let ir = cg.print_to_string_for_test();
    assert!(ir.contains("@printf"));
    assert!(ir.contains("%ld"));
    assert!(ir.contains("ret i32 0"));
    assert!(cg.emit_bytes().is_ok());
}

#[test]
fn llvm_string_builtins_verify() {
    for name in ["string_concat", "string_contains", "string_starts_with", "string_eq", "string_ends_with"] {
        let context = Context::create();
        let mut cg = LlvmCodegen::new(&context).unwrap();
        let m = builtin_module(
            name,
            vec![Value(1), Value(2)],
            vec![(Value(1), Literal::Str("hello".to_string())), (Value(2), Literal::Str("lo".to_string()))],
            HashMap::new(),
        );
        cg.compile_module(&m).unwrap();
        assert!(cg.emit_bytes().is_ok(), "{} should give a valid module", name);
    }
}

#[test]
fn llvm_pow_builds_a_loop() {
    let context = Context::create();
    let mut cg = LlvmCodegen::new(&context).unwrap();
    let m = builtin_module("pow", vec![Value(1), Value(2)], vec![(Value(1), Literal::Int(2)), (Value(2), Literal::Int(10))], HashMap::new());
    cg.compile_module(&m).unwrap();
    let ir = cg.print_to_string_for_test();
    assert!(ir.contains("pow.header.90"));
    assert!(ir.contains("pow.exit.90"));
    assert!(cg.emit_bytes().is_ok());
}

#[test]
fn llvm_builtin_with_too_few_arguments_is_an_error() {
    let context = Context::create();
    let mut cg = LlvmCodegen::new(&context).unwrap();
    let m = builtin_module("min", vec![Value(1)], vec![(Value(1), Literal::Int(2))], HashMap::new());
    let e = cg.compile_module(&m).unwrap_err();
    assert_eq!(e.message, "built-in 'min' called with too few arguments");
}

#[test]
fn llvm_missing_value_and_unknown_ref_errors() {
    let context = Context::create();
    let mut cg = LlvmCodegen::new(&context).unwrap();
    let func = function(
        "f",
        vec![],
        Type::I64,
        vec![BasicBlock { label: BlockRef(0), instructions: vec![Instruction::Add(Value(3), Value(7), Value(8))] }],
        HashMap::new(),
    );
    let e = cg.compile_module(&one_function_module(func, HashMap::new())).unwrap_err();
    assert_eq!(e.message, "IR Value(7) not found in value map");

    let context2 = Context::create();
    let mut cg2 = LlvmCodegen::new(&context2).unwrap();
    let func2 = function(
        "g",
        vec![],
        Type::Void,
        vec![BasicBlock { label: BlockRef(0), instructions: vec![Instruction::Call(Value(1), FuncRef(5), vec![])] }],
        HashMap::new(),
    );
    let e2 = cg2.compile_module(&one_function_module(func2, HashMap::new())).unwrap_err();
    assert_eq!(e2.message, "Unknown FuncRef(5) in call instruction");
}

#[test]
fn llvm_unsupported_instruction_is_reported() {
    let context = Context::create();
    let mut cg = LlvmCodegen::new(&context).unwrap();
    let func = function(
        "h",
        vec![Type::I64],
        Type::I64,
        vec![BasicBlock { label: BlockRef(0), instructions: vec![Instruction::PtrToInt(Value(1), Value(0))] }],
        HashMap::new(),
    );
    let e = cg.compile_module(&one_function_module(func, HashMap::new())).unwrap_err();
    assert_eq!(e.message, "LLVM backend does not yet lower instruction: PtrToInt(Value(1), Value(0))");
}

#[test]
fn llvm_variants_and_user_calls_verify() {
    let context = Context::create();
    let mut cg = LlvmCodegen::new(&context).unwrap();
    let mut vt = HashMap::new();
    vt.insert(0, Type::I64);
    let callee = Function {
        name: "id".to_string(),
        params: vec![Type::I64],
        return_type: Type::I64,
        blocks: vec![BasicBlock { label: BlockRef(0), instructions: vec![Instruction::Ret(Some(Value(0)))] }],
        value_types: vt,
        is_export: false,
        extern_lib: None,
    };
    let caller = function(
        "use_variant",
        vec![],
        Type::I64,
        vec![BasicBlock {
            label: BlockRef(0),
            instructions: vec![
                Instruction::Const(Value(0), Literal::Int(5)),
                Instruction::ConstructVariant { result: Value(1), tag: 2, payload: vec![Value(0)] },
                Instruction::GetVariantTag { result: Value(2), ptr: Value(1) },
                Instruction::GetVariantField { result: Value(3), ptr: Value(1), index: 0 },
                Instruction::Call(Value(4), FuncRef(0), vec![Value(3)]),
                Instruction::Add(Value(5), Value(4), Value(2)),
                Instruction::Ret(Some(Value(5))),
            ],
        }],
        HashMap::new(),
    );
    let mut refs = HashMap::new();
    refs.insert(0, "id".to_string());
    let m = Module { name: "t".to_string(), functions: vec![callee, caller], func_refs: refs };
    cg.compile_module(&m).unwrap();
    let ir = cg.print_to_string_for_test();
    assert!(ir.contains("@malloc"));
    assert!(ir.contains("call i64 @id"));
    assert!(cg.emit_bytes().is_ok());
}

#[test]
fn llvm_phi_keeps_only_live_predecessors() {
    let blocks = vec![
        BasicBlock { label: BlockRef(0), instructions: vec![Instruction::Jump(BlockRef(2))] },
        BasicBlock { label: BlockRef(1), instructions: vec![Instruction::Jump(BlockRef(2))] },
        BasicBlock { label: BlockRef(2), instructions: vec![Instruction::Ret(None)] },
        BasicBlock { label: BlockRef(3), instructions: vec![Instruction::Ret(None)] },
    ];
    let reach = vec![0u32, 2u32];
    let entries = vec![(BlockRef(0), Value(5)), (BlockRef(1), Value(6)), (BlockRef(3), Value(7))];
    let kept = live_phi_entries(&blocks, &reach, &entries, 2);
    assert_eq!(kept, vec![(BlockRef(0), Value(5))]);
}

#[test]
fn llvm_main_gets_c_signature() {
    let context = Context::create();
    let mut cg = LlvmCodegen::new(&context).unwrap();
    let func = Function {
        name: "main".to_string(),
        params: vec![],
        return_type: Type::Void,
        blocks: vec![BasicBlock { label: BlockRef(0), instructions: vec![Instruction::Ret(None)] }],
        value_types: HashMap::new(),
        is_export: false,
        extern_lib: None,
    };
    cg.compile_module(&one_function_module(func, HashMap::new())).unwrap();
    let ir = cg.print_to_string_for_test();
    assert!(ir.contains("define i32 @main(i32 %0, i8* %1)"));
    assert!(cg.emit_bytes().is_ok());
}

#[test]
fn llvm_unreachable_blocks_are_not_emitted() {
    let context = Context::create();
    let mut cg = LlvmCodegen::new(&context).unwrap();
    let func = function(
        "skip",
        vec![],
        Type::I64,
        vec![
            BasicBlock { label: BlockRef(0), instructions: vec![Instruction::Const(Value(0), Literal::Int(1)), Instruction::Ret(Some(Value(0)))] },
            BasicBlock { label: BlockRef(7), instructions: vec![Instruction::Const(Value(1), Literal::Int(2)), Instruction::Ret(Some(Value(1)))] },
        ],
        HashMap::new(),
    );
    cg.compile_module(&one_function_module(func, HashMap::new())).unwrap();
    let ir = cg.print_to_string_for_test();
    assert!(ir.contains("block.0"));
    assert!(!ir.contains("block.7"));
}

#[test]
fn llvm_same_string_constant_is_shared() {
    let context = Context::create();
    let mut cg = LlvmCodegen::new(&context).unwrap();
    let func = function(
        "two_strings",
        vec![],
        Type::Ptr,
        vec![BasicBlock {
            label: BlockRef(0),
            instructions: vec![
                Instruction::Const(Value(0), Literal::Str("shared".to_string())),
                Instruction::Const(Value(1), Literal::Str("shared".to_string())),
                Instruction::Ret(Some(Value(1))),
            ],
        }],
        HashMap::new(),
    );
    cg.compile_module(&one_function_module(func, HashMap::new())).unwrap();
    let ir = cg.print_to_string_for_test();
    assert_eq!(ir.matches("c\"shared\\00\"").count(), 1);
}

#[test]
fn llvm_builtin_with_missing_argument_is_an_error() {
    let context = Context::create();
    let mut cg = LlvmCodegen::new(&context).unwrap();
    let m = builtin_module("string_eq", vec![Value(1), Value(2)], vec![(Value(1), Literal::Str("a".to_string()))], HashMap::new());
    let e = cg.compile_module(&m).unwrap_err();
    assert_eq!(e.message, "IR Value(2) not found in value map");

    let context2 = Context::create();
    let mut cg2 = LlvmCodegen::new(&context2).unwrap();
    let m2 = builtin_module("abs", vec![Value(4)], vec![], HashMap::new());
    let e2 = cg2.compile_module(&m2).unwrap_err();
    assert_eq!(e2.message, "IR Value(4) not found in value map");
}

#[test]
fn llvm_user_call_with_missing_argument_is_an_error() {
    let context = Context::create();
    let mut cg = LlvmCodegen::new(&context).unwrap();
    let callee = function("two", vec![Type::I64, Type::I64], Type::I64, vec![], HashMap::new());
    let caller = function(
        "caller",
        vec![],
        Type::I64,
        vec![BasicBlock {
            label: BlockRef(0),
            instructions: vec![
                Instruction::Const(Value(0), Literal::Int(5)),
                Instruction::Call(Value(1), FuncRef(0), vec![Value(0), Value(6)]),
                Instruction::Ret(Some(Value(1))),
            ],
        }],
        HashMap::new(),
    );
    let mut refs = HashMap::new();
    refs.insert(0, "two".to_string());
    let m = Module { name: "t".to_string(), functions: vec![callee, caller], func_refs: refs };
    let e = cg.compile_module(&m).unwrap_err();
    assert_eq!(e.message, "IR Value(6) not found in value map");
}

#[test]
fn llvm_function_without_blocks_gets_an_entry_block_returning_void() {
    let context = Context::create();
    let mut cg = LlvmCodegen::new(&context).unwrap();
    let f = function("stub", vec![], Type::Void, vec![], HashMap::new());
    let m = one_function_module(f, HashMap::new());
    assert!(cg.compile_module(&m).is_ok());
    let text = cg.print_to_string_for_test();
    assert!(text.contains("define void @stub()"));
    assert!(text.contains("entry:"));
    assert!(text.contains("ret void"));
}
