use gradient_codegen::cfg::reachable_labels;
use gradient_codegen::clbody::predecessor_count;
use gradient_codegen::clbuiltin::{runtime_call, Post};
use gradient_codegen::clfunc::{filter_phi_entries, loop_headers};
use gradient_codegen::clrecipes::recipe_for;
use gradient_codegen::cranelift::{c_string_bytes, user_signature, CraneliftCodegen};
use gradient_codegen::ir::{BasicBlock, BlockRef, FuncRef, Function, Instruction, Literal, Module, Type, Value};
use gradient_codegen::clplan::ClPlanner;
use gradient_codegen::mach::{Conv, Decl, Linkage, MTy, Op, Span, StringTable};
use std::collections::HashMap;

fn block(label: u32, instructions: Vec<Instruction>) -> BasicBlock {
    BasicBlock { label: BlockRef(label), instructions }
}

fn diamond_with_dead_block() -> Vec<BasicBlock> {
    vec![
        block(0, vec![Instruction::Branch(Value(0), BlockRef(1), BlockRef(3))]),
        block(1, vec![Instruction::Jump(BlockRef(3))]),
        block(2, vec![Instruction::Jump(BlockRef(3))]),
        block(3, vec![Instruction::Phi(Value(5), vec![(BlockRef(0), Value(1)), (BlockRef(1), Value(2)), (BlockRef(2), Value(3))]), Instruction::Ret(None)]),
    ]
}

#[test]
fn reachable_labels_skip_dead_blocks() {
    let r = reachable_labels(&diamond_with_dead_block());
    let mut sorted = r.clone();
    sorted.sort();
    assert_eq!(sorted, vec![0, 1, 3]);
    assert_eq!(r[0], 0);
}

#[test]
fn reachable_labels_of_no_blocks_is_empty() {
    assert!(reachable_labels(&vec![]).is_empty());
}

#[test]
fn phi_entries_keep_real_predecessors_only() {
    let blocks = diamond_with_dead_block();
    let es = vec![(BlockRef(0), Value(1)), (BlockRef(1), Value(2)), (BlockRef(4), Value(9))];
    let kept = filter_phi_entries(&blocks, &es, 3);
    assert_eq!(kept, vec![(BlockRef(0), Value(1)), (BlockRef(1), Value(2))]);
}

#[test]
fn loop_headers_are_back_edge_targets() {
    let blocks = vec![
        block(0, vec![Instruction::Jump(BlockRef(1))]),
        block(1, vec![Instruction::Branch(Value(0), BlockRef(2), BlockRef(3))]),
        block(2, vec![Instruction::Jump(BlockRef(1))]),
        block(3, vec![Instruction::Jump(BlockRef(3))]),
    ];
    let mut h = loop_headers(&blocks);
    h.sort();
    assert_eq!(h, vec![1, 3]);
    assert_eq!(predecessor_count(&blocks, 1), 2);
    assert_eq!(predecessor_count(&blocks, 3), 2);
    assert_eq!(predecessor_count(&blocks, 0), 0);
}

#[test]
fn interning_is_idempotent_and_distinct() {
    let mut t = StringTable::new();
    let a = t.intern("%ld");
    let b = t.intern("true");
    let a2 = t.intern("%ld");
    assert_eq!(a, 0);
    assert_eq!(b, 1);
    assert_eq!(a2, a);
    assert_eq!(t.entries.len(), 2);
}

#[test]
fn message_type_ids_are_stable_and_distinct() {
    let mut cg = CraneliftCodegen::new().unwrap();
    let ping = cg.get_message_type_id("Counter", "Ping");
    let pong = cg.get_message_type_id("Counter", "Pong");
    let again = cg.get_message_type_id("Counter", "Ping");
    let other = cg.get_message_type_id("Timer", "Ping");
    assert_eq!(ping, 1);
    assert_eq!(pong, 2);
    assert_eq!(again, 1);
    assert_eq!(other, 3);
}

#[test]
fn runtime_call_table() {
    let c = runtime_call("parse_int").unwrap();
    assert_eq!(c.callee, "atoi");
    assert_eq!(c.nargs, 1);
    assert_eq!(c.post, Post::SExtendI64);
    let s = runtime_call("sleep").unwrap();
    assert_eq!(s.callee, "__gradient_sleep");
    assert_eq!(s.post, Post::UnitI8);
    assert_eq!(runtime_call("string_is_empty").unwrap().post, Post::ReduceI8);
    assert!(runtime_call("pow").is_none());
    assert!(runtime_call("user_fn").is_none());
}

#[test]
fn recipe_table() {
    let pow = recipe_for("pow").unwrap();
    assert!(pow.texts.is_empty());
    assert_eq!(pow.steps.len(), 22);
    assert_eq!(pow.result, 3);
    let p = recipe_for("print_bool").unwrap();
    assert_eq!(p.texts, vec!["%s", "true", "false"]);
    assert!(recipe_for("parse_int").is_none());
}

#[test]
fn main_signature_gets_argc_argv_and_status() {
    let f = Function {
        name: "main".to_string(),
        params: vec![Type::F64],
        return_type: Type::Void,
        blocks: vec![],
        value_types: HashMap::new(),
        is_export: false,
        extern_lib: None,
    };
    let (p, r) = user_signature(&f);
    assert_eq!(p, vec![MTy::I32, MTy::I64, MTy::F64]);
    assert_eq!(r, vec![MTy::I32]);
    let g = Function { name: "helper".to_string(), return_type: Type::Bool, ..f };
    let (p, r) = user_signature(&g);
    assert_eq!(p, vec![MTy::F64]);
    assert_eq!(r, vec![MTy::I8]);
}

#[test]
fn c_strings_are_zero_terminated() {
    assert_eq!(c_string_bytes("hi"), vec![104, 105, 0]);
    assert_eq!(c_string_bytes(""), vec![0]);
}

fn single_function(name: &str, instructions: Vec<Instruction>, func_refs: HashMap<u32, String>) -> Module {
    let mut vt = HashMap::new();
    vt.insert(0u32, Type::I64);
    Module {
        name: "m".to_string(),
        functions: vec![Function {
            name: name.to_string(),
            params: vec![],
            return_type: Type::I64,
            blocks: vec![block(0, instructions)],
            value_types: vt,
            is_export: false,
            extern_lib: None,
        }],
        func_refs,
    }
}

fn first_failure(m: &Module) -> String {
    let mut cg = CraneliftCodegen::new().unwrap();
    cg.compile_module(m).unwrap_err()
}

#[test]
fn undeclared_function_is_reported() {
    let m = single_function("f", vec![Instruction::Ret(None)], HashMap::new());
    let mut cg = CraneliftCodegen::new().unwrap();
    let err = cg.compile_function(&m.functions[0], &m).unwrap_err();
    assert_eq!(err, "Function 'f' was not declared");
}

#[test]
fn missing_value_is_reported() {
    let m = single_function("f", vec![Instruction::Ret(Some(Value(7)))], HashMap::new());
    assert_eq!(first_failure(&m), "IR Value(7) not found in value map");
}

#[test]
fn unknown_func_ref_is_reported() {
    let m = single_function("f", vec![Instruction::Call(Value(0), FuncRef(4), vec![]), Instruction::Ret(None)], HashMap::new());
    assert_eq!(first_failure(&m), "Unknown FuncRef(4) in call instruction");
}

#[test]
fn missing_jump_target_is_reported() {
    let m = single_function("f", vec![Instruction::Jump(BlockRef(9))], HashMap::new());
    assert_eq!(first_failure(&m), "Target block BlockRef(9) not found");
}

#[test]
fn undeclared_runtime_function_is_reported() {
    let mut refs = HashMap::new();
    refs.insert(0u32, "get_env".to_string());
    let m = single_function(
        "f",
        vec![Instruction::Const(Value(1), Literal::Str("HOME".to_string())), Instruction::Call(Value(0), FuncRef(0), vec![Value(1)]), Instruction::Ret(Some(Value(0)))],
        refs,
    );
    assert_eq!(first_failure(&m), "__gradient_get_env not declared");
}

#[test]
fn builtin_with_too_few_arguments_is_reported() {
    let mut refs = HashMap::new();
    refs.insert(0u32, "string_split".to_string());
    let m = single_function("f", vec![Instruction::Call(Value(0), FuncRef(0), vec![]), Instruction::Ret(Some(Value(0)))], refs);
    assert_eq!(first_failure(&m), "built-in 'string_split' called with too few arguments");
}

#[test]
fn failing_recipe_is_reported() {
    let mut refs = HashMap::new();
    refs.insert(0u32, "pow".to_string());
    let m = single_function("f", vec![Instruction::Call(Value(0), FuncRef(0), vec![Value(3)]), Instruction::Ret(Some(Value(0)))], refs);
    assert_eq!(first_failure(&m), "cannot lower built-in 'pow'");
}

fn actor_decls() -> Vec<Decl> {
    let import = |name: &str, params: Vec<MTy>, rets: Vec<MTy>| Decl { name: name.to_string(), params, rets, linkage: Linkage::Import };
    vec![
        import("__gradient_actor_send", vec![MTy::I64; 4], vec![MTy::I64]),
        import("__gradient_actor_ask", vec![MTy::I64; 4], vec![MTy::I64]),
    ]
}

#[test]
fn send_is_lowered_to_a_runtime_call() {
    let mut p = ClPlanner::new();
    let h = p.iconst(MTy::I64, 42);
    p.bind(Value(1), h);
    let mut strings = StringTable::new();
    let r = p.lower_message(&mut strings, &actor_decls(), false, Value(9), Value(1), &"Ping".to_string(), None);
    assert_eq!(r, Ok(()));
    assert_eq!(strings.entries, vec!["Ping".to_string()]);
    assert_eq!(
        p.ops[1..].to_vec(),
        vec![
            Op::DataAddr { dst: 1, data: 0 },
            Op::IConst { dst: 2, ty: MTy::I64, imm: 0 },
            Op::Convert { dst: 3, conv: Conv::Bitcast, ty: MTy::I64, a: 0 },
            Op::IConst { dst: 4, ty: MTy::I64, imm: 523 },
            Op::IConst { dst: 5, ty: MTy::I64, imm: 8 },
            Op::Call { func: 0, args: Span { start: 0, len: 4 }, dst: 6, has_result: true },
        ]
    );
    assert_eq!(p.args, vec![3, 4, 2, 5]);
    assert!(p.vmap.get(&9).is_none());
}

#[test]
fn ask_binds_the_reply() {
    let mut p = ClPlanner::new();
    let h = p.iconst(MTy::I64, 42);
    p.bind(Value(1), h);
    p.bind(Value(2), h);
    let mut strings = StringTable::new();
    let r = p.lower_message(&mut strings, &actor_decls(), true, Value(9), Value(1), &"Ping".to_string(), Some(Value(2)));
    assert_eq!(r, Ok(()));
    assert!(strings.entries.is_empty());
    assert_eq!(
        p.ops[1..].to_vec(),
        vec![
            Op::Convert { dst: 1, conv: Conv::Bitcast, ty: MTy::I64, a: 0 },
            Op::IConst { dst: 2, ty: MTy::I64, imm: 523 },
            Op::IConst { dst: 3, ty: MTy::I64, imm: 8 },
            Op::Call { func: 1, args: Span { start: 0, len: 4 }, dst: 4, has_result: true },
        ]
    );
    assert_eq!(p.args, vec![1, 2, 0, 3]);
    assert_eq!(p.vmap.get(&9), Some(&4));
}

#[test]
fn message_errors_are_reported() {
    let mut p = ClPlanner::new();
    let mut strings = StringTable::new();
    let r = p.lower_message(&mut strings, &actor_decls(), false, Value(9), Value(1), &"Ping".to_string(), None);
    assert_eq!(r, Err("IR Value(1) not found in value map".to_string()));
    let h = p.iconst(MTy::I64, 42);
    p.bind(Value(1), h);
    let r = p.lower_message(&mut strings, &actor_decls(), true, Value(9), Value(1), &"Ping".to_string(), Some(Value(5)));
    assert_eq!(r, Err("IR Value(5) not found in value map".to_string()));
    let r = p.lower_message(&mut strings, &vec![], true, Value(9), Value(1), &"Ping".to_string(), None);
    assert_eq!(r, Err("__gradient_actor_ask not declared".to_string()));
}
