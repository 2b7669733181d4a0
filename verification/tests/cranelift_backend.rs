use gradient_codegen::backend::{BackendWrapper, CodegenBackend};
use gradient_codegen::cranelift::CraneliftCodegen;
use gradient_codegen::ir::{BasicBlock, BlockRef, CmpOp, FuncRef, Function, Instruction, Literal, Module, Type, Value};
use std::collections::HashMap;

fn main_with(name: &str, instructions: Vec<Instruction>, types: &[(u32, Type)], func_refs: HashMap<u32, String>) -> Module {
    let mut vt = HashMap::new();
    for (v, t) in types {
        vt.insert(*v, *t);
    }
    Module {
        name: name.to_string(),
        functions: vec![Function {
            name: "main".to_string(),
            params: vec![],
            return_type: Type::Void,
            blocks: vec![BasicBlock { label: BlockRef(0), instructions }],
            value_types: vt,
            is_export: false,
            extern_lib: None,
        }],
        func_refs,
    }
}

fn empty_module() -> Module {
    Module { name: "test".to_string(), functions: vec![], func_refs: HashMap::new() }
}

#[test]
fn test_cranelift_backend_name() {
    let cg = CraneliftCodegen::new().unwrap();
    assert_eq!(cg.name(), "cranelift");
}

#[test]
fn test_cranelift_backend_trait_compile_empty_module() {
    let mut cg = CraneliftCodegen::new().unwrap();
    let module = empty_module();
    let result = CodegenBackend::compile_module(&mut cg, &module);
    assert!(result.is_ok());
}

#[test]
fn test_cranelift_backend_trait_finish_produces_bytes() {
    let mut cg = CraneliftCodegen::new().unwrap();
    let module = empty_module();
    CodegenBackend::compile_module(&mut cg, &module).unwrap();
    let boxed: Box<dyn CodegenBackend> = Box::new(cg);
    let bytes = boxed.finish().unwrap();
    assert!(!bytes.is_empty());
}

#[test]
fn test_cranelift_emit_bytes() {
    let cg = CraneliftCodegen::new().unwrap();
    let bytes = cg.emit_bytes().unwrap();
    assert!(!bytes.is_empty());
}

#[test]
fn test_cranelift_backend_used_as_dyn_trait() {
    let cg = CraneliftCodegen::new().unwrap();
    let backend: Box<dyn CodegenBackend> = Box::new(cg);
    assert_eq!(backend.name(), "cranelift");
}

#[test]
fn test_construct_variant_unit_compiles() {
    let module = main_with(
        "test_unit_variant",
        vec![
            Instruction::ConstructVariant { result: Value(0), tag: 0, payload: vec![] },
            Instruction::Ret(None),
        ],
        &[(0, Type::Ptr)],
        HashMap::new(),
    );
    let mut cg = CraneliftCodegen::new().unwrap();
    let result = cg.compile_module(&module);
    assert!(result.is_ok(), "unit ConstructVariant codegen failed: {:?}", result.err());
    let bytes = cg.emit_bytes().unwrap();
    assert!(!bytes.is_empty());
}

#[test]
fn test_construct_variant_with_payload_compiles() {
    let module = main_with(
        "test_tuple_variant",
        vec![
            Instruction::Const(Value(0), Literal::Int(42)),
            Instruction::ConstructVariant { result: Value(1), tag: 0, payload: vec![Value(0)] },
            Instruction::Ret(None),
        ],
        &[(0, Type::I64), (1, Type::Ptr)],
        HashMap::new(),
    );
    let mut cg = CraneliftCodegen::new().unwrap();
    let result = cg.compile_module(&module);
    assert!(result.is_ok(), "tuple ConstructVariant codegen failed: {:?}", result.err());
    let bytes = cg.emit_bytes().unwrap();
    assert!(!bytes.is_empty());
}

#[test]
fn test_get_variant_tag_compiles() {
    let module = main_with(
        "test_get_tag",
        vec![
            Instruction::ConstructVariant { result: Value(0), tag: 1, payload: vec![] },
            Instruction::GetVariantTag { result: Value(1), ptr: Value(0) },
            Instruction::Const(Value(2), Literal::Int(1)),
            Instruction::Cmp(Value(3), CmpOp::Eq, Value(1), Value(2)),
            Instruction::Ret(None),
        ],
        &[(0, Type::Ptr), (1, Type::I64), (2, Type::I64), (3, Type::Bool)],
        HashMap::new(),
    );
    let mut cg = CraneliftCodegen::new().unwrap();
    let result = cg.compile_module(&module);
    assert!(result.is_ok(), "GetVariantTag codegen failed: {:?}", result.err());
    let bytes = cg.emit_bytes().unwrap();
    assert!(!bytes.is_empty());
}

#[test]
fn test_get_variant_field_compiles() {
    let module = main_with(
        "test_get_field",
        vec![
            Instruction::Const(Value(0), Literal::Int(99)),
            Instruction::ConstructVariant { result: Value(1), tag: 0, payload: vec![Value(0)] },
            Instruction::GetVariantField { result: Value(2), ptr: Value(1), index: 0 },
            Instruction::Ret(None),
        ],
        &[(0, Type::I64), (1, Type::Ptr), (2, Type::I64)],
        HashMap::new(),
    );
    let mut cg = CraneliftCodegen::new().unwrap();
    let result = cg.compile_module(&module);
    assert!(result.is_ok(), "GetVariantField codegen failed: {:?}", result.err());
    let bytes = cg.emit_bytes().unwrap();
    assert!(!bytes.is_empty());
}

#[test]
fn hello_world_emits_an_object() {
    let mut cg = CraneliftCodegen::new().unwrap();
    cg.emit_hello_world().unwrap();
    let bytes = cg.emit_bytes().unwrap();
    assert_eq!(&bytes[0..4], b"\x7fELF");
}

#[test]
fn backend_selection_by_name() {
    let w = BackendWrapper::new_with_backend("cranelift").unwrap();
    assert_eq!(w.backend_name(), "cranelift");
    assert_eq!(
        BackendWrapper::new_with_backend("llvm").err().unwrap().message,
        "LLVM backend not available (compiled without llvm feature)"
    );
    assert_eq!(
        BackendWrapper::new_with_backend("wasm").err().unwrap().message,
        "WASM backend not available (compiled without wasm feature)"
    );
    assert_eq!(BackendWrapper::new_with_backend("gpu").err().unwrap().message, "Unknown backend type: gpu");
}

#[test]
fn release_mode_falls_back_to_cranelift() {
    assert!(BackendWrapper::release_fallback_warning(true).is_some());
    assert!(BackendWrapper::release_fallback_warning(false).is_none());
    let w = BackendWrapper::new(true).unwrap();
    assert_eq!(w.backend_name(), "cranelift");
}

#[test]
fn loop_with_phi_compiles() {
    // fn count(n) { i = 0; loop: i' = phi(0 from entry, i+1 from body); if i' < n { body } else { ret i' } }
    let mut vt = HashMap::new();
    for (v, t) in [(0, Type::I64), (1, Type::I64), (2, Type::I64), (3, Type::Bool), (4, Type::I64), (5, Type::I64)] {
        vt.insert(v, t);
    }
    let f = Function {
        name: "count".to_string(),
        params: vec![Type::I64],
        return_type: Type::I64,
        blocks: vec![
            BasicBlock {
                label: BlockRef(0),
                instructions: vec![Instruction::Const(Value(1), Literal::Int(0)), Instruction::Jump(BlockRef(1))],
            },
            BasicBlock {
                label: BlockRef(1),
                instructions: vec![
                    Instruction::Phi(Value(2), vec![(BlockRef(0), Value(1)), (BlockRef(2), Value(5))]),
                    Instruction::Cmp(Value(3), CmpOp::Lt, Value(2), Value(0)),
                    Instruction::Branch(Value(3), BlockRef(2), BlockRef(3)),
                ],
            },
            BasicBlock {
                label: BlockRef(2),
                instructions: vec![
                    Instruction::Const(Value(4), Literal::Int(1)),
                    Instruction::Add(Value(5), Value(2), Value(4)),
                    Instruction::Jump(BlockRef(1)),
                ],
            },
            BasicBlock { label: BlockRef(3), instructions: vec![Instruction::Ret(Some(Value(2)))] },
        ],
        value_types: vt,
        is_export: true,
        extern_lib: None,
    };
    let module = Module { name: "loops".to_string(), functions: vec![f], func_refs: HashMap::new() };
    let mut cg = CraneliftCodegen::new().unwrap();
    let result = cg.compile_module(&module);
    assert!(result.is_ok(), "loop codegen failed: {:?}", result.err());
    assert!(!cg.emit_bytes().unwrap().is_empty());
}

fn refs(names: &[&str]) -> HashMap<u32, String> {
    let mut m = HashMap::new();
    for (i, n) in names.iter().enumerate() {
        m.insert(i as u32, n.to_string());
    }
    m
}

fn compiles(module: &Module) -> Vec<u8> {
    let mut cg = CraneliftCodegen::new().unwrap();
    let result = cg.compile_module(module);
    assert!(result.is_ok(), "codegen failed: {:?}", result.err());
    let bytes = cg.emit_bytes().unwrap();
    assert!(!bytes.is_empty());
    bytes
}

#[test]
fn test_int_to_string_codegen_produces_snprintf_call() {
    let module = main_with(
        "test_int_to_string",
        vec![
            Instruction::Const(Value(0), Literal::Int(42)),
            Instruction::Call(Value(1), FuncRef(0), vec![Value(0)]),
            Instruction::Call(Value(2), FuncRef(1), vec![Value(1)]),
            Instruction::Ret(None),
        ],
        &[(0, Type::I64), (1, Type::Ptr), (2, Type::Void)],
        refs(&["int_to_string", "print"]),
    );
    let mut cg = CraneliftCodegen::new().unwrap();
    let result = cg.compile_module(&module);
    assert!(result.is_ok(), "int_to_string codegen failed: {:?}", result.err());
    let bytes = cg.emit_bytes().unwrap();
    assert!(!bytes.is_empty());
}

#[test]
fn test_parse_int_codegen_emits_atoi_call() {
    let module = main_with(
        "test_parse_int",
        vec![
            Instruction::Const(Value(0), Literal::Str("123".to_string())),
            Instruction::Call(Value(1), FuncRef(0), vec![Value(0)]),
            Instruction::Ret(None),
        ],
        &[(0, Type::Ptr), (1, Type::I64)],
        refs(&["parse_int"]),
    );
    let mut cg = CraneliftCodegen::new().unwrap();
    let result = cg.compile_module(&module);
    assert!(result.is_ok(), "parse_int codegen failed: {:?}", result.err());
    let bytes = cg.emit_bytes().unwrap();
    assert!(!bytes.is_empty());
}

#[test]
fn test_parse_float_codegen_emits_atof_call() {
    let module = main_with(
        "test_parse_float",
        vec![
            Instruction::Const(Value(0), Literal::Str("3.14".to_string())),
            Instruction::Call(Value(1), FuncRef(0), vec![Value(0)]),
            Instruction::Ret(None),
        ],
        &[(0, Type::Ptr), (1, Type::F64)],
        refs(&["parse_float"]),
    );
    let mut cg = CraneliftCodegen::new().unwrap();
    let result = cg.compile_module(&module);
    assert!(result.is_ok(), "parse_float codegen failed: {:?}", result.err());
    let bytes = cg.emit_bytes().unwrap();
    assert!(!bytes.is_empty());
}

#[test]
fn test_exit_codegen_emits_libc_exit_call() {
    let module = main_with(
        "test_exit",
        vec![
            Instruction::Const(Value(0), Literal::Int(0)),
            Instruction::Call(Value(1), FuncRef(0), vec![Value(0)]),
            Instruction::Ret(None),
        ],
        &[(0, Type::I64), (1, Type::Void)],
        refs(&["exit"]),
    );
    let mut cg = CraneliftCodegen::new().unwrap();
    let result = cg.compile_module(&module);
    assert!(result.is_ok(), "exit codegen failed: {:?}", result.err());
    let bytes = cg.emit_bytes().unwrap();
    assert!(!bytes.is_empty());
}

fn build_module_calling_no_arg_ptr_builtin(builtin_name: &str) -> Module {
    main_with(
        &format!("test_{}", builtin_name),
        vec![Instruction::Call(Value(0), FuncRef(0), vec![]), Instruction::Ret(None)],
        &[(0, Type::Ptr)],
        refs(&[builtin_name]),
    )
}

#[test]
fn test_read_line_codegen_declares_helper_import() {
    let module = build_module_calling_no_arg_ptr_builtin("read_line");
    let mut cg = CraneliftCodegen::new().unwrap();
    let result = cg.compile_module(&module);
    assert!(result.is_ok(), "read_line codegen failed: {:?}", result.err());
    let bytes = cg.emit_bytes().unwrap();
    assert!(!bytes.is_empty());
}

#[test]
fn test_args_codegen_calls_runtime_helper() {
    let module = main_with(
        "test_args",
        vec![Instruction::Call(Value(0), FuncRef(0), vec![]), Instruction::Ret(None)],
        &[(0, Type::Ptr)],
        refs(&["args"]),
    );
    let mut cg = CraneliftCodegen::new().unwrap();
    let result = cg.compile_module(&module);
    assert!(result.is_ok(), "args codegen failed: {:?}", result.err());
    let bytes = cg.emit_bytes().unwrap();
    assert!(!bytes.is_empty());
}

#[test]
fn string_and_list_builtins_compile() {
    let module = main_with(
        "builtins",
        vec![
            Instruction::Const(Value(0), Literal::Str("hello".to_string())),
            Instruction::Const(Value(1), Literal::Str("l".to_string())),
            Instruction::Call(Value(2), FuncRef(0), vec![Value(0), Value(1)]),
            Instruction::Call(Value(3), FuncRef(1), vec![Value(0)]),
            Instruction::Call(Value(4), FuncRef(2), vec![Value(0), Value(1), Value(1)]),
            Instruction::Const(Value(5), Literal::Int(2)),
            Instruction::Const(Value(6), Literal::Int(10)),
            Instruction::Call(Value(7), FuncRef(3), vec![Value(5), Value(6)]),
            Instruction::Call(Value(8), FuncRef(4), vec![Value(5), Value(6)]),
            Instruction::Call(Value(9), FuncRef(5), vec![Value(8)]),
            Instruction::Call(Value(10), FuncRef(6), vec![Value(9)]),
            Instruction::Call(Value(11), FuncRef(7), vec![Value(0)]),
            Instruction::Const(Value(12), Literal::Float(2.5f64.to_bits())),
            Instruction::Call(Value(13), FuncRef(8), vec![Value(12)]),
            Instruction::Call(Value(14), FuncRef(9), vec![Value(13)]),
            Instruction::Ret(None),
        ],
        &[
            (0, Type::Ptr), (1, Type::Ptr), (2, Type::Bool), (3, Type::Ptr), (4, Type::Ptr),
            (5, Type::I64), (6, Type::I64), (7, Type::I64), (8, Type::Ptr), (9, Type::Ptr),
            (10, Type::I64), (11, Type::I64), (12, Type::F64), (13, Type::Ptr), (14, Type::Void),
        ],
        refs(&[
            "string_contains", "string_to_upper", "string_replace", "pow", "list_literal_2",
            "list_reverse", "list_length", "string_length", "float_to_string", "print",
        ]),
    );
    compiles(&module);
}

#[test]
fn test_emit_bytes_refuses_exported_function_without_body() {
    let mut cg = CraneliftCodegen::new().unwrap();
    let f = Function {
        name: "lonely".to_string(),
        params: vec![],
        return_type: Type::Void,
        blocks: vec![],
        value_types: HashMap::new(),
        is_export: true,
        extern_lib: None,
    };
    let module = Module { name: "t".to_string(), functions: vec![f], func_refs: HashMap::new() };
    cg.compile_module(&module).unwrap();
    let err = cg.emit_bytes().unwrap_err();
    assert!(err.contains("'lonely' is declared but not defined"));
}

#[test]
fn test_emit_bytes_after_body_is_compiled_later() {
    let mut cg = CraneliftCodegen::new().unwrap();
    let exported = |blocks: Vec<BasicBlock>| Function {
        name: "f".to_string(),
        params: vec![],
        return_type: Type::Void,
        blocks,
        value_types: HashMap::new(),
        is_export: true,
        extern_lib: None,
    };
    let module = Module { name: "t".to_string(), functions: vec![exported(vec![])], func_refs: HashMap::new() };
    cg.compile_module(&module).unwrap();
    let body = exported(vec![BasicBlock {
        label: BlockRef(0),
        instructions: vec![Instruction::Ret(None), Instruction::Ret(Some(Value(9)))],
    }]);
    cg.compile_function(&body, &module).unwrap();
    let bytes = cg.emit_bytes().unwrap();
    assert!(!bytes.is_empty());
}

#[test]
fn test_compile_empty_module_twice() {
    let mut cg = CraneliftCodegen::new().unwrap();
    let module = empty_module();
    assert!(cg.compile_module(&module).is_ok());
    assert!(cg.compile_module(&module).is_ok());
}

#[test]
fn test_compile_module_passes_planning_error_on() {
    let mut cg = CraneliftCodegen::new().unwrap();
    let module = Module {
        name: "t".to_string(),
        functions: vec![Function {
            name: "h".to_string(),
            params: vec![],
            return_type: Type::Void,
            blocks: vec![BasicBlock {
                label: BlockRef(0),
                instructions: vec![Instruction::Call(Value(0), FuncRef(7), vec![]), Instruction::Ret(None)],
            }],
            value_types: HashMap::new(),
            is_export: true,
            extern_lib: None,
        }],
        func_refs: HashMap::new(),
    };
    assert_eq!(cg.compile_module(&module), Err("Unknown FuncRef(7) in call instruction".to_string()));
}
