use aeiou::compiler::asm_file::AsmFile;
use aeiou::compiler::register::{Register, RegisterAllocator, RegisterStack, POOL_SIZE};
use aeiou::parser::Type;

#[test]
fn fresh_file_holds_prologue_and_format_strings() {
    let mut f = AsmFile::new();
    let out = f.finalize();
    assert!(out.starts_with("section .rodata\n"));
    assert!(out.contains("section .data\n\t__aeiou__format_i32 db \"%d\", 10, 0\n"));
    assert!(out.contains("\t__aeiou__format_f64 db \"%f\", 10, 0\n"));
    assert!(out.contains("section .bss\n"));
    assert!(out.contains("section .text\n    global main\n    extern printf\n    extern exit\nmain:\n"));
    assert!(out.contains("\tpush rbp\n\tmov rbp, rsp\n"));
    assert!(out.contains("\tleave\n\tmov rdi, 0\n\tcall exit\n\tret\n"));
}

#[test]
fn sections_are_concatenated_in_fixed_order() {
    let mut f = AsmFile::new();
    f.write_rodata("ro");
    f.write_data("da");
    f.write_bss("bs");
    f.write_text("tx");
    let out = f.finalize();
    let ro = out.find("\tro\n").unwrap();
    let da = out.find("\tda\n").unwrap();
    let bs = out.find("\tbs\n").unwrap();
    let tx = out.find("\ttx\n").unwrap();
    assert!(ro < da && da < bs && bs < tx);
}

#[test]
fn instruction_writers_format_operands() {
    let mut f = AsmFile::new();
    f.write_instruction2("mov", "rax", "rbx");
    f.write_instruction1("idiv", "rcx");
    let out = f.finalize();
    assert!(out.contains("\tmov rax, rbx\n"));
    assert!(out.contains("\tidiv rcx\n"));
}

#[test]
fn register_names_are_lower_case() {
    assert_eq!(Register::Rax.name(), "rax");
    assert_eq!(Register::Rbp.name(), "rbp");
    assert_eq!(Register::R10.name(), "r10");
    assert_eq!(Register::Xmm0.name(), "xmm0");
    assert_eq!(Register::Xmm7.name(), "xmm7");
}

#[test]
fn register_stack_is_lifo() {
    let mut s = RegisterStack::new(vec![Register::Rax, Register::Rbx, Register::Rcx]);
    assert_eq!(s.allocate(), Register::Rax);
    assert_eq!(s.allocate(), Register::Rbx);
    assert_eq!(s.peek(), Register::Rbx);
    assert_eq!(s.dealloc(), Register::Rbx);
    assert_eq!(s.peek(), Register::Rax);
    assert_eq!(s.allocate(), Register::Rbx);
}

#[test]
fn allocator_pools_are_independent() {
    let mut a = RegisterAllocator::new();
    assert_eq!(a.allocate(&Type::I32), Register::Rcx);
    assert_eq!(a.allocate(&Type::F64), Register::Xmm1);
    assert_eq!(a.allocate(&Type::I32), Register::Rdi);
    assert_eq!(a.allocate(&Type::F64), Register::Xmm2);
    assert_eq!(a.peek(&Type::I32), Register::Rdi);
    assert_eq!(a.dealloc(&Type::F64), Register::Xmm2);
    assert_eq!(a.peek(&Type::F64), Register::Xmm1);
    assert_eq!(a.peek(&Type::I32), Register::Rdi);
}

#[test]
fn allocator_pool_order_and_capacity() {
    let mut a = RegisterAllocator::new();
    let expected = [
        Register::Rcx,
        Register::Rdi,
        Register::Rsi,
        Register::R8,
        Register::R9,
        Register::R10,
        Register::R11,
    ];
    for (k, want) in expected.iter().enumerate() {
        assert!(!a.is_full(&Type::I32), "pool full after {} registers", k);
        assert_eq!(a.allocate(&Type::I32), *want);
    }
    assert!(a.is_full(&Type::I32));
    assert!(!a.is_full(&Type::F64));
    assert_eq!(POOL_SIZE, 7);
}
