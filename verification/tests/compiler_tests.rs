use aeiou::compiler::{CompileError, Compiler};
use aeiou::lexer::{tokenize, TokenType};
use aeiou::parser::{parse, Expr, Stmt, Type};

fn compile_text(text: &str) -> Result<String, CompileError> {
    let tokens = tokenize(text).unwrap();
    let stmts = parse(tokens).unwrap();
    let mut c = Compiler::new();
    c.compile(stmts)
}

const DATA: &str =
    "section .data\n\t__aeiou__format_i32 db \"%d\", 10, 0\n\t__aeiou__format_f64 db \"%f\", 10, 0\n";
const BSS: &str = "section .bss\n";
const TEXT_HEAD: &str =
    "section .text\n    global main\n    extern printf\n    extern exit\nmain:\n\tpush rbp\n\tmov rbp, rsp\n";
const EPILOGUE: &str = "\t\n\tleave\n\tmov rdi, 0\n\tcall exit\n\tret\n\t\n";
const PRINT_I32: &str = "\tmov rdi, __aeiou__format_i32\n\tmov rsi, rcx\n\tmov rax, 0\n\tcall printf\n";
const PRINT_F64: &str = "\tmov rdi, __aeiou__format_f64\n\tmovsd xmm0, xmm1\n\tmov rax, 1\n\tcall printf\n";

fn expected(rodata_lines: &str, body: &str) -> String {
    format!(
        "section .rodata\n{}\n{}\n{}\n{}{}{}",
        rodata_lines, DATA, BSS, TEXT_HEAD, body, EPILOGUE
    )
}

// `print 2 + 3` (runtime output 5)
#[test]
fn scenario_add_integers() {
    let out = compile_text("დაბეჭდე 2 + 3\n").unwrap();
    let body = format!(
        "\tmovsxd rcx, [__aeiou__literal__0]\n\tmovsxd rdi, [__aeiou__literal__1]\n\tadd rcx, rdi\n{}",
        PRINT_I32
    );
    assert_eq!(
        out,
        expected(
            "\t__aeiou__literal__0 dd 2\n\t__aeiou__literal__1 dd 3\n",
            &body
        )
    );
}

// `print 2.5 + 1.5` (runtime output 4.000000)
#[test]
fn scenario_add_floats() {
    let out = compile_text("დაბეჭდე 2.5 + 1.5\n").unwrap();
    let body = format!(
        "\tmovsd xmm1, [__aeiou__literal__0]\n\tmovsd xmm2, [__aeiou__literal__1]\n\taddsd xmm1, xmm2\n{}",
        PRINT_F64
    );
    assert_eq!(
        out,
        expected(
            "\t__aeiou__literal__0 dq 2.5\n\t__aeiou__literal__1 dq 1.5\n",
            &body
        )
    );
}

// `print -(4 * 2)` (runtime output -8)
#[test]
fn scenario_negated_product() {
    let out = compile_text("დაბეჭდე -(4 * 2)\n").unwrap();
    let body = format!(
        "\tmovsxd rcx, [__aeiou__literal__0]\n\tmovsxd rdi, [__aeiou__literal__1]\n\timul rcx, rdi\n\tneg rcx\n{}",
        PRINT_I32
    );
    assert_eq!(
        out,
        expected(
            "\t__aeiou__literal__0 dd 4\n\t__aeiou__literal__1 dd 2\n",
            &body
        )
    );
}

// `print 10 / 3` (runtime output 3, truncating integer division)
#[test]
fn scenario_integer_division() {
    let out = compile_text("დაბეჭდე 10 / 3\n").unwrap();
    let body = format!(
        "\tmovsxd rcx, [__aeiou__literal__0]\n\tmovsxd rdi, [__aeiou__literal__1]\n\tmov rdx, 0\n\tmov rax, rcx\n\tidiv rdi\n\tmov rcx, rax\n{}",
        PRINT_I32
    );
    assert_eq!(
        out,
        expected(
            "\t__aeiou__literal__0 dd 10\n\t__aeiou__literal__1 dd 3\n",
            &body
        )
    );
}

// `print (1 + 2) * (3 - 1)` (runtime output 6); the second `1` reuses the
// pooled literal of the first
#[test]
fn scenario_two_groups() {
    let out = compile_text("დაბეჭდე (1 + 2) * (3 - 1)\n").unwrap();
    let body = format!(
        "\tmovsxd rcx, [__aeiou__literal__0]\n\tmovsxd rdi, [__aeiou__literal__1]\n\tadd rcx, rdi\n\tmovsxd rdi, [__aeiou__literal__2]\n\tmovsxd rsi, [__aeiou__literal__0]\n\tsub rdi, rsi\n\timul rcx, rdi\n{}",
        PRINT_I32
    );
    assert_eq!(
        out,
        expected(
            "\t__aeiou__literal__0 dd 1\n\t__aeiou__literal__1 dd 2\n\t__aeiou__literal__2 dd 3\n",
            &body
        )
    );
}

// negating the float literal 3.5 pools -1.0 and multiplies it in, so the
// printed value carries the bit pattern of -3.5
#[test]
fn float_negation_multiplies_by_pooled_minus_one() {
    let out = compile_text("დაბეჭდე -3.5\n").unwrap();
    let body = format!(
        "\tmovsd xmm1, [__aeiou__literal__0]\n\tmovsd xmm2, [__aeiou__literal__1]\n\tmulsd xmm1, xmm2\n{}",
        PRINT_F64
    );
    assert_eq!(
        out,
        expected(
            "\t__aeiou__literal__0 dq 3.5\n\t__aeiou__literal__1 dq -1.0\n",
            &body
        )
    );
}

// the high half is cleared immediately before every integer division
#[test]
fn division_zeroes_high_half_first() {
    let out = compile_text("დაბეჭდე 10 / 3\n").unwrap();
    let div_pos = out.find("\tidiv rdi\n").unwrap();
    let zero_pos = out.find("\tmov rdx, 0\n").unwrap();
    assert!(zero_pos < div_pos);
    assert!(out[..div_pos].ends_with("\tmov rdx, 0\n\tmov rax, rcx\n"));
}

#[test]
fn repeated_literal_is_declared_once() {
    let out = compile_text("დაბეჭდე 5\nდაბეჭდე 5\n").unwrap();
    assert_eq!(out.matches("dd 5").count(), 1);
    assert_eq!(out.matches("__aeiou__literal__0").count(), 3);
    assert!(!out.contains("__aeiou__literal__1"));
}

#[test]
fn same_text_in_both_classes_gets_two_symbols() {
    let out = compile_text("დაბეჭდე 5\nდაბეჭდე 5.0\n").unwrap();
    assert!(out.contains("\t__aeiou__literal__0 dd 5\n"));
    assert!(out.contains("\t__aeiou__literal__1 dq 5.0\n"));
}

#[test]
fn expression_statement_computes_and_discards() {
    let out = compile_text("1 + 1\n").unwrap();
    let body =
        "\tmovsxd rcx, [__aeiou__literal__0]\n\tmovsxd rdi, [__aeiou__literal__0]\n\tadd rcx, rdi\n";
    assert_eq!(out, expected("\t__aeiou__literal__0 dd 1\n", body));
}

#[test]
fn var_statement_pushes_result() {
    let out = compile_text("ცვლადი x = 7\n").unwrap();
    let body = "\tmovsxd rcx, [__aeiou__literal__0]\n\tpush rcx\n";
    assert_eq!(out, expected("\t__aeiou__literal__0 dd 7\n", body));
}

fn nested_int_expr(wraps: usize) -> Expr {
    let mut e = Expr::Literal(Type::I32, String::from("1"));
    for _ in 0..wraps {
        e = Expr::Binary(
            Type::I32,
            Box::new(Expr::Literal(Type::I32, String::from("1"))),
            TokenType::Plus,
            Box::new(e),
        );
    }
    e
}

// a tree whose nesting keeps exactly the pool's seven registers live is
// still generated
#[test]
fn depth_at_pool_capacity_succeeds() {
    let e = nested_int_expr(6);
    assert!(e.is_well_typed());
    let mut c = Compiler::new();
    assert!(c.compile(vec![Stmt::Expression(Box::new(e))]).is_ok());
}

// one level deeper and the pool is exhausted: generation fails
#[test]
fn depth_past_pool_capacity_fails() {
    let e = nested_int_expr(7);
    assert!(e.is_well_typed());
    let mut c = Compiler::new();
    assert_eq!(
        c.compile(vec![Stmt::Expression(Box::new(e))]),
        Err(CompileError::OutOfRegisters)
    );
}

#[test]
fn float_pool_exhaustion_fails_too() {
    let mut e = Expr::Literal(Type::F64, String::from("1.0"));
    for _ in 0..7 {
        e = Expr::Binary(
            Type::F64,
            Box::new(Expr::Literal(Type::F64, String::from("1.0"))),
            TokenType::Plus,
            Box::new(e),
        );
    }
    let mut c = Compiler::new();
    assert_eq!(
        c.compile(vec![Stmt::Expression(Box::new(e))]),
        Err(CompileError::OutOfRegisters)
    );
}

// deep float negation needs one extra temporary beyond the operand
#[test]
fn float_negation_needs_one_spare_register() {
    // six wraps put the negated literal in the seventh register: no spare
    // register is left for -1.0
    let mut e = Expr::Unary(Type::F64, Box::new(Expr::Literal(Type::F64, String::from("2.0"))));
    for _ in 0..6 {
        e = Expr::Binary(
            Type::F64,
            Box::new(Expr::Literal(Type::F64, String::from("1.0"))),
            TokenType::Plus,
            Box::new(e),
        );
    }
    let mut c = Compiler::new();
    assert_eq!(
        c.compile(vec![Stmt::Expression(Box::new(e))]),
        Err(CompileError::OutOfRegisters)
    );
}

#[test]
fn operator_outside_the_four_is_an_internal_error() {
    let e = Expr::Binary(
        Type::I32,
        Box::new(Expr::Literal(Type::I32, String::from("1"))),
        TokenType::Colon,
        Box::new(Expr::Literal(Type::I32, String::from("2"))),
    );
    assert!(e.is_well_typed());
    let mut c = Compiler::new();
    assert_eq!(
        c.compile(vec![Stmt::Expression(Box::new(e))]),
        Err(CompileError::InvalidOperator)
    );
}

// every statement releases the register its result held, so a long
// statement list never runs the pools dry
#[test]
fn statement_driver_releases_registers() {
    let mut text = String::new();
    for _ in 0..20 {
        text.push_str("დაბეჭდე 1 + 2\n");
        text.push_str("დაბეჭდე 1.5 + 2.5\n");
    }
    assert!(compile_text(&text).is_ok());
}

#[test]
fn error_messages() {
    assert_eq!(CompileError::InvalidOperator.message(), "Invalid operator");
    assert_eq!(CompileError::OutOfRegisters.message(), "Out of registers!");
}

#[test]
fn compiler_is_reusable_after_success() {
    let mut c = Compiler::new();
    let stmts = parse(tokenize("დაბეჭდე 1\n").unwrap()).unwrap();
    let first = c.compile(stmts).unwrap();
    assert!(first.contains("call printf"));
}
