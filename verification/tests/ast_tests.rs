use asm_ast::ast::{Headers, Program};

#[test]
fn headers_default_machine_configuration() {
    let h = Headers::new();
    assert_eq!(h.bits, 8);
    assert_eq!(h.minheap, 16);
    assert_eq!(h.minstack, 16);
    assert_eq!(h.minram, 16);
    assert_eq!(h.minreg, 8);
}

#[test]
fn new_program_is_empty_with_default_headers() {
    let p = Program::new();
    assert!(p.instructions.is_empty());
    assert!(p.labels.is_empty());
    assert_eq!(p.headers, Headers::new());
}
