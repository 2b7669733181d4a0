use gradient_codegen::{llvm_available, CodegenError};

#[test]
fn test_codegen_error_display() {
    let err = CodegenError::from_str("test error");
    assert_eq!(err.to_string(), "test error");
}

#[test]
fn test_codegen_error_from_string() {
    let err = CodegenError::from(String::from("string error"));
    assert_eq!(err.message, "string error");
}

#[test]
fn test_llvm_available_without_feature() {
    let available = llvm_available();
    assert!(!available);
}
