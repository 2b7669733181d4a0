# gradient_codegen

Code generation for the Gradient compiler, written in Verus: Gradient IR
(`src/ir.rs`) is lowered to a native object file through Cranelift or LLVM.

Layout of `src/`:

- `ir.rs`, `error.rs`, `text.rs`, `cfg.rs`: the IR, the error type, text
  helpers, and the control-flow analysis both backends share (reachable
  blocks, edges, loop headers).
- `mach.rs`, `clplan.rs`, `cl*.rs`: the Cranelift backend. A function body
  is first planned as a list of machine operations (`clbody`, with one
  module per kind of instruction and the built-in tables `clbuiltin`,
  `clrecipe`, `clrecipes`); `clemit` then replays the plan through
  Cranelift's `FunctionBuilder`, and `cranelift` declares imports and
  functions and writes the object file.
- `llemit.rs`, `llvm.rs`, `llvm/`: the LLVM backend, which lowers each IR
  instruction through `inkwell` (LLVM with typed pointers: the IR's pointer
  type is `i8*`).
- `backend.rs`: the `CodegenBackend` trait and the backend selection.

`app/lib.rs` holds what touches the file system and the terminal: writing
the object file and printing the release-mode fallback warning.
