[package]
name = "gradient_codegen"
version = "0.1.0"
edition = "2021"
publish = false

[dependencies]
cranelift-codegen = "=0.132.3"
cranelift-frontend = "=0.132.3"
cranelift-module = "=0.132.3"
cranelift-object = "=0.132.3"
target-lexicon = "=0.13.5"
inkwell = { version = "=0.11.0", features = ["llvm14-0-force-dynamic"] }
