use vstd::prelude::*;

pub mod asm_file;
pub mod numeral;
pub mod register;

verus! {

use crate::compiler::asm_file::{
    bss_start,
    data_start,
    epilogue,
    instr1_text,
    instr2_text,
    line_of,
    rodata_start,
    sections_text,
    text_start,
    AsmFile,
};
use crate::compiler::numeral::{dec_seq, lemma_dec_seq_injective};
use crate::compiler::register::{
    float_pool,
    other_class,
    pool_of,
    reg_name,
    Register,
    RegisterAllocator,
    POOL_SIZE,
};
use crate::lexer::TokenType;
use crate::parser::expr::{expr_type, ops_ok, reg_demand, well_typed};
use crate::parser::stmt::{stmt_expr, stmt_well_typed};
use crate::parser::{Expr, Stmt, Type};
use vstd::string::StringExecFns;

/// Failure of code generation. An operator outside the supported four is an
/// internal-invariant violation; exhausting a register pool is the design's
/// fatal resource limit (there is no spill path), surfaced as an error so the
/// caller decides how to abort.
#[derive(Clone, Copy, Debug, PartialEq, Eq, Structural)]
pub enum CompileError {
    InvalidOperator,
    OutOfRegisters,
}

impl CompileError {
    /// A short diagnostic for reporting outside the library.
    pub fn message(&self) -> (r: &'static str)
        ensures
            *self == CompileError::InvalidOperator ==> r@ == "Invalid operator"@,
            *self == CompileError::OutOfRegisters ==> r@ == "Out of registers!"@,
    {
        match self {
            CompileError::InvalidOperator => "Invalid operator",
            CompileError::OutOfRegisters => "Out of registers!",
        }
    }
}

/// The generator's whole observable state: the two register-pool pointers,
/// the interned literal keys in the order their symbols were minted, and the
/// four output sections. Every step of generation is a function on this.
#[verifier::ext_equal]
pub ghost struct GenState {
    pub int_sp: nat,
    pub float_sp: nat,
    pub literal_keys: Seq<Seq<char>>,
    pub rodata: Seq<char>,
    pub data: Seq<char>,
    pub bss: Seq<char>,
    pub text: Seq<char>,
}

/// Pool pointer of `t`'s class.
pub open spec fn sp_of_state(m: GenState, t: Type) -> nat {
    match t {
        Type::I32 => m.int_sp,
        Type::F64 => m.float_sp,
    }
}

/// `m` with the pool pointer of `t`'s class replaced.
pub open spec fn with_sp(m: GenState, t: Type, n: nat) -> GenState {
    match t {
        Type::I32 => GenState { int_sp: n, ..m },
        Type::F64 => GenState { float_sp: n, ..m },
    }
}

/// `m` with one line appended to the instruction section.
pub open spec fn emit_text(m: GenState, line: Seq<char>) -> GenState {
    GenState { text: m.text + line_of(line), ..m }
}

/// The state of a freshly constructed generator.
pub open spec fn initial_state() -> GenState {
    GenState {
        int_sp: 0,
        float_sp: 0,
        literal_keys: Seq::empty(),
        rodata: rodata_start(),
        data: data_start(),
        bss: bss_start(),
        text: text_start(),
    }
}

/// The data-declaration keyword selecting the operand width of `t`.
pub open spec fn width_word(t: Type) -> Seq<char> {
    match t {
        Type::I32 => "dd"@,
        Type::F64 => "dq"@,
    }
}

/// Register-to-register and immediate move mnemonic per class.
pub open spec fn mov_word(t: Type) -> Seq<char> {
    match t {
        Type::I32 => "mov"@,
        Type::F64 => "movsd"@,
    }
}

/// Memory-operand load mnemonic per class: sign-extending move for 32-bit
/// integers, scalar-double move for floats.
pub open spec fn load_word(t: Type) -> Seq<char> {
    match t {
        Type::I32 => "movsxd"@,
        Type::F64 => "movsd"@,
    }
}

pub open spec fn add_word(t: Type) -> Seq<char> {
    match t {
        Type::I32 => "add"@,
        Type::F64 => "addsd"@,
    }
}

pub open spec fn sub_word(t: Type) -> Seq<char> {
    match t {
        Type::I32 => "sub"@,
        Type::F64 => "subsd"@,
    }
}

pub open spec fn mul_word(t: Type) -> Seq<char> {
    match t {
        Type::I32 => "imul"@,
        Type::F64 => "mulsd"@,
    }
}

/// The literal pool's lookup key: width keyword and literal text, so equal
/// texts of different classes stay distinct.
pub open spec fn lit_key(t: Type, lit: Seq<char>) -> Seq<char> {
    width_word(t) + "|"@ + lit
}

/// Index of the first occurrence of `key`, or -1 when absent.
pub open spec fn find_key(keys: Seq<Seq<char>>, key: Seq<char>) -> int
    decreases keys.len(),
{
    if keys.len() == 0 {
        -1
    } else if keys[0] == key {
        0
    } else {
        let r = find_key(keys.drop_first(), key);
        if r < 0 {
            -1
        } else {
            r + 1
        }
    }
}

/// The stable symbol minted for the `i`-th interned literal.
pub open spec fn sym_name(i: nat) -> Seq<char> {
    "__aeiou__literal__"@ + dec_seq(i)
}

/// The read-only-data declaration of one pooled literal.
pub open spec fn rodata_decl(sym: Seq<char>, t: Type, lit: Seq<char>) -> Seq<char> {
    sym + " "@ + width_word(t) + " "@ + lit
}

/// The symbol interning `(t, lit)` yields: the previously minted name when
/// the key is already pooled, a fresh one otherwise.
pub open spec fn intern_sym(m: GenState, t: Type, lit: Seq<char>) -> Seq<char> {
    let f = find_key(m.literal_keys, lit_key(t, lit));
    if f >= 0 {
        sym_name(f as nat)
    } else {
        sym_name(m.literal_keys.len())
    }
}

/// State after interning `(t, lit)`: unchanged on a repeated key, otherwise
/// the key is recorded and exactly one declaration is emitted.
pub open spec fn intern_state(m: GenState, t: Type, lit: Seq<char>) -> GenState {
    let key = lit_key(t, lit);
    if find_key(m.literal_keys, key) >= 0 {
        m
    } else {
        GenState {
            literal_keys: m.literal_keys.push(key),
            rodata: m.rodata + line_of(rodata_decl(sym_name(m.literal_keys.len()), t, lit)),
            ..m
        }
    }
}

/// A bracketed memory operand.
pub open spec fn mem_operand(sym: Seq<char>) -> Seq<char> {
    "["@ + sym + "]"@
}

/// Generation of a literal leaf: take the next register of the class, pool
/// the literal, load it from its symbol.
pub open spec fn gen_literal(m: GenState, t: Type, lit: Seq<char>) -> Result<
    GenState,
    CompileError,
> {
    if sp_of_state(m, t) >= POOL_SIZE {
        Result::Err(CompileError::OutOfRegisters)
    } else {
        let dst = pool_of(t)[sp_of_state(m, t) as int];
        let m1 = with_sp(m, t, sp_of_state(m, t) + 1);
        let m2 = intern_state(m1, t, lit);
        Result::Ok(
            emit_text(m2, instr2_text(load_word(t), reg_name(dst), mem_operand(intern_sym(m1, t, lit)))),
        )
    }
}

/// Generation of arithmetic negation of the value in `dst`. Integers negate
/// in place; floats have no direct negate in the chosen instruction subset,
/// so `-1.0` is pooled, loaded into one extra temporary and multiplied in.
pub open spec fn gen_neg(m: GenState, t: Type, dst: Register) -> Result<GenState, CompileError> {
    match t {
        Type::I32 => Result::Ok(emit_text(m, instr1_text("neg"@, reg_name(dst)))),
        Type::F64 => {
            let sym = intern_sym(m, Type::F64, "-1.0"@);
            let m1 = intern_state(m, Type::F64, "-1.0"@);
            if m1.float_sp >= POOL_SIZE {
                Result::Err(CompileError::OutOfRegisters)
            } else {
                let temp = float_pool()[m1.float_sp as int];
                let m2 = with_sp(m1, Type::F64, m1.float_sp + 1);
                let m3 = emit_text(m2, instr2_text("movsd"@, reg_name(temp), mem_operand(sym)));
                let m4 = emit_text(m3, instr2_text("mulsd"@, reg_name(dst), reg_name(temp)));
                Result::Ok(with_sp(m4, Type::F64, (m4.float_sp - 1) as nat))
            }
        },
    }
}

/// Generation of a division, with the result moved back into `dst`. The
/// 32-bit path uses the wide-division idiom: the high half is cleared first,
/// since stale high bits would corrupt the signed quotient.
pub open spec fn gen_div(m: GenState, t: Type, dst: Register, src: Register) -> GenState {
    match t {
        Type::I32 => {
            let m1 = emit_text(m, instr2_text("mov"@, reg_name(Register::Rdx), "0"@));
            let m2 = emit_text(m1, instr2_text("mov"@, reg_name(Register::Rax), reg_name(dst)));
            let m3 = emit_text(m2, instr1_text("idiv"@, reg_name(src)));
            emit_text(m3, instr2_text("mov"@, reg_name(dst), reg_name(Register::Rax)))
        },
        Type::F64 => emit_text(m, instr2_text("divsd"@, reg_name(dst), reg_name(src))),
    }
}

/// Instruction selection for a binary operator over `dst` and `src`; any
/// operator outside the four is an internal error.
pub open spec fn gen_binop(
    m: GenState,
    t: Type,
    op: TokenType,
    dst: Register,
    src: Register,
) -> Result<GenState, CompileError> {
    if op == TokenType::Plus {
        Result::Ok(emit_text(m, instr2_text(add_word(t), reg_name(dst), reg_name(src))))
    } else if op == TokenType::Minus {
        Result::Ok(emit_text(m, instr2_text(sub_word(t), reg_name(dst), reg_name(src))))
    } else if op == TokenType::Star {
        Result::Ok(emit_text(m, instr2_text(mul_word(t), reg_name(dst), reg_name(src))))
    } else if op == TokenType::Slash {
        Result::Ok(gen_div(m, t, dst, src))
    } else {
        Result::Err(CompileError::InvalidOperator)
    }
}

/// The post-order expression walk: children first, then the node's own
/// instructions. A binary node releases its right operand's register and
/// folds into the left one, the accumulator pattern.
pub open spec fn gen_expr(m: GenState, e: Expr) -> Result<GenState, CompileError>
    decreases e,
{
    match e {
        Expr::Literal(t, lit) => gen_literal(m, t, lit@),
        Expr::Grouping(_, inner) => gen_expr(m, *inner),
        Expr::Unary(t, inner) => match gen_expr(m, *inner) {
            Result::Ok(m1) => gen_neg(m1, t, pool_of(t)[sp_of_state(m1, t) - 1]),
            Result::Err(er) => Result::Err(er),
        },
        Expr::Binary(t, l, op, r) => match gen_expr(m, *l) {
            Result::Ok(m1) => match gen_expr(m1, *r) {
                Result::Ok(m2) => {
                    let src = pool_of(t)[sp_of_state(m2, t) - 1];
                    let m3 = with_sp(m2, t, (sp_of_state(m2, t) - 1) as nat);
                    let dst = pool_of(t)[sp_of_state(m3, t) - 1];
                    gen_binop(m3, t, op, dst, src)
                },
                Result::Err(er) => Result::Err(er),
            },
            Result::Err(er) => Result::Err(er),
        },
    }
}

/// The print sequence: format-string symbol and result operand are moved
/// into the calling-convention argument registers, the variadic-class
/// selector is set (0: no floating arguments, 1: one), and the formatted
/// output routine is called.
pub open spec fn gen_print(m: GenState, t: Type) -> GenState {
    let s = pool_of(t)[sp_of_state(m, t) - 1];
    match t {
        Type::I32 => {
            let m1 = emit_text(
                m,
                instr2_text("mov"@, reg_name(Register::Rdi), "__aeiou__format_i32"@),
            );
            let m2 = emit_text(m1, instr2_text("mov"@, reg_name(Register::Rsi), reg_name(s)));
            let m3 = emit_text(m2, instr2_text("mov"@, reg_name(Register::Rax), "0"@));
            emit_text(m3, instr1_text("call"@, "printf"@))
        },
        Type::F64 => {
            let m1 = emit_text(
                m,
                instr2_text("mov"@, reg_name(Register::Rdi), "__aeiou__format_f64"@),
            );
            let m2 = emit_text(m1, instr2_text("movsd"@, reg_name(Register::Xmm0), reg_name(s)));
            let m3 = emit_text(m2, instr2_text("mov"@, reg_name(Register::Rax), "1"@));
            emit_text(m3, instr1_text("call"@, "printf"@))
        },
    }
}

/// A declared variable's value is pushed onto the native call stack; no
/// symbol table records it for later reads.
pub open spec fn gen_var(m: GenState, t: Type) -> GenState {
    emit_text(m, instr1_text("push"@, reg_name(pool_of(t)[sp_of_state(m, t) - 1])))
}

/// One statement: evaluate the expression, dispatch on the statement kind,
/// release the result register.
pub open spec fn gen_stmt(m: GenState, s: Stmt) -> Result<GenState, CompileError> {
    match gen_expr(m, stmt_expr(s)) {
        Result::Ok(m1) => {
            let t = expr_type(stmt_expr(s));
            let m2 = match s {
                Stmt::Print(_) => gen_print(m1, t),
                Stmt::Expression(_) => m1,
                Stmt::Var(_, _, _) => gen_var(m1, t),
            };
            Result::Ok(with_sp(m2, t, (sp_of_state(m2, t) - 1) as nat))
        },
        Result::Err(er) => Result::Err(er),
    }
}

/// The statement driver, front to back.
pub open spec fn gen_stmts(m: GenState, ss: Seq<Stmt>) -> Result<GenState, CompileError>
    decreases ss.len(),
{
    if ss.len() == 0 {
        Result::Ok(m)
    } else {
        match gen_stmt(m, ss[0]) {
            Result::Ok(m1) => gen_stmts(m1, ss.drop_first()),
            Result::Err(er) => Result::Err(er),
        }
    }
}

/// The finished assembly text of a generation that ended in state `m`.
pub open spec fn output_text(m: GenState) -> Seq<char> {
    sections_text(m.rodata, m.data, m.bss, m.text + line_of(epilogue()))
}

pub proof fn lemma_find_key_bounds(keys: Seq<Seq<char>>, key: Seq<char>)
    ensures
        -1 <= find_key(keys, key) < keys.len(),
        find_key(keys, key) >= 0 ==> keys[find_key(keys, key)] == key,
        find_key(keys, key) < 0 ==> forall|jj: int| 0 <= jj < keys.len() ==> keys[jj] != key,
    decreases keys.len(),
{
    if keys.len() > 0 && keys[0] != key {
        lemma_find_key_bounds(keys.drop_first(), key);
        assert forall|jj: int|
            find_key(keys, key) < 0 && 0 <= jj < keys.len() implies keys[jj] != key by {
            if jj > 0 {
                assert(keys.drop_first()[jj - 1] == keys[jj]);
            }
        }
    }
}

/// `find_key` returns the first occurrence.
pub proof fn lemma_find_key_at(keys: Seq<Seq<char>>, key: Seq<char>, j: int)
    requires
        0 <= j < keys.len(),
        keys[j] == key,
        forall|jj: int| 0 <= jj < j ==> keys[jj] != key,
    ensures
        find_key(keys, key) == j,
    decreases keys.len(),
{
    if j > 0 {
        lemma_find_key_at(keys.drop_first(), key, j - 1);
    }
}

pub proof fn lemma_find_key_absent(keys: Seq<Seq<char>>, key: Seq<char>)
    requires
        forall|jj: int| 0 <= jj < keys.len() ==> keys[jj] != key,
    ensures
        find_key(keys, key) == -1,
    decreases keys.len(),
{
    if keys.len() > 0 {
        lemma_find_key_absent(keys.drop_first(), key);
    }
}

/// Distinct indices mint distinct symbols.
pub proof fn lemma_sym_name_injective(a: nat, b: nat)
    requires
        sym_name(a) == sym_name(b),
    ensures
        a == b,
{
    let p = "__aeiou__literal__"@;
    assert(dec_seq(a) =~= sym_name(a).subrange(p.len() as int, sym_name(a).len() as int));
    assert(dec_seq(b) =~= sym_name(b).subrange(p.len() as int, sym_name(b).len() as int));
    lemma_dec_seq_injective(a, b);
}

/// Interning touches only the literal pool and the read-only-data section:
/// the pool pointers and the other sections stay as they were.
pub proof fn lemma_intern_frame(m: GenState, t: Type, lit: Seq<char>)
    ensures
        intern_state(m, t, lit).int_sp == m.int_sp,
        intern_state(m, t, lit).float_sp == m.float_sp,
        intern_state(m, t, lit).data == m.data,
        intern_state(m, t, lit).bss == m.bss,
        intern_state(m, t, lit).text == m.text,
{
}

/// Pooling law, repeated key: interning the same typed literal twice yields
/// the same symbol both times, and the second interning changes nothing at
/// all — in particular the literal's read-only-data declaration stands in
/// the output exactly once.
pub proof fn lemma_intern_idempotent(m: GenState, t: Type, lit: Seq<char>)
    ensures
        intern_sym(intern_state(m, t, lit), t, lit) == intern_sym(m, t, lit),
        intern_state(intern_state(m, t, lit), t, lit) == intern_state(m, t, lit),
{
    let key = lit_key(t, lit);
    let keys = m.literal_keys;
    lemma_find_key_bounds(keys, key);
    if find_key(keys, key) < 0 {
        lemma_find_key_at(keys.push(key), key, keys.len() as int);
    }
}

/// Pooling law, distinct classes: interning one literal text first in the
/// integer class and then in the floating class yields two distinct symbols,
/// whatever the pool already holds.
pub proof fn lemma_intern_distinct_classes(m: GenState, lit: Seq<char>)
    ensures
        intern_sym(m, Type::I32, lit) != intern_sym(
            intern_state(m, Type::I32, lit),
            Type::F64,
            lit,
        ),
{
    let k1 = lit_key(Type::I32, lit);
    let k2 = lit_key(Type::F64, lit);
    reveal_strlit("dd");
    reveal_strlit("dq");
    reveal_strlit("|");
    assert(k1[1] == 'd');
    assert(k2[1] == 'q');
    let keys = m.literal_keys;
    let m1 = intern_state(m, Type::I32, lit);
    lemma_find_key_bounds(keys, k1);
    lemma_find_key_bounds(keys, k2);
    lemma_find_key_bounds(m1.literal_keys, k2);
    let f1 = find_key(keys, k1);
    let i1: int = if f1 >= 0 {
        f1
    } else {
        keys.len() as int
    };
    let f2 = find_key(m1.literal_keys, k2);
    let i2: int = if f2 >= 0 {
        f2
    } else {
        m1.literal_keys.len() as int
    };
    if f1 < 0 {
        assert(m1.literal_keys == keys.push(k1));
        assert(m1.literal_keys[keys.len() as int] == k1);
    }
    assert(i1 != i2) by {
        if f1 >= 0 && f2 >= 0 {
            assert(m1.literal_keys[f1] == keys[f1]);
        }
    }
    if intern_sym(m, Type::I32, lit) == intern_sym(m1, Type::F64, lit) {
        lemma_sym_name_injective(i1 as nat, i2 as nat);
    }
}

/// Register accounting of the expression walk, and exactly when it
/// succeeds: generation of a well-typed tree completes precisely when every
/// operator is one of the four and the tree's peak register demand fits in
/// what its class's pool still has free; on success the tree's class holds
/// one more live register (the result) and the other class is unchanged.
pub proof fn lemma_gen_expr_ok(m: GenState, e: Expr)
    requires
        well_typed(e),
    ensures
        gen_expr(m, e) is Ok <==> (ops_ok(e) && sp_of_state(m, expr_type(e)) + reg_demand(e)
            <= POOL_SIZE),
        gen_expr(m, e) is Ok ==> sp_of_state(gen_expr(m, e).unwrap(), expr_type(e)) == sp_of_state(
            m,
            expr_type(e),
        ) + 1,
        gen_expr(m, e) is Ok ==> sp_of_state(
            gen_expr(m, e).unwrap(),
            other_class(expr_type(e)),
        ) == sp_of_state(m, other_class(expr_type(e))),
    decreases e,
{
    match e {
        Expr::Literal(t, lit) => {
        },
        Expr::Grouping(_, inner) => {
            lemma_gen_expr_ok(m, *inner);
        },
        Expr::Unary(t, inner) => {
            lemma_gen_expr_ok(m, *inner);
            if gen_expr(m, *inner) is Ok {
                let m1 = gen_expr(m, *inner).unwrap();
                if t == Type::F64 {
                    lemma_intern_frame(m1, Type::F64, "-1.0"@);
                }
            }
        },
        Expr::Binary(t, l, op, r) => {
            lemma_gen_expr_ok(m, *l);
            if gen_expr(m, *l) is Ok {
                let m1 = gen_expr(m, *l).unwrap();
                lemma_gen_expr_ok(m1, *r);
            }
        },
    }
}

/// One statement succeeds exactly when its expression carries only the four
/// operators and its peak register demand fits in what its class's pool
/// still has free; afterwards the statement's result register has been
/// released again, so both pool pointers are back at their entry values.
pub proof fn lemma_gen_stmt_ok(m: GenState, s: Stmt)
    requires
        stmt_well_typed(s),
    ensures
        gen_stmt(m, s) is Ok <==> (ops_ok(stmt_expr(s)) && sp_of_state(
            m,
            expr_type(stmt_expr(s)),
        ) + reg_demand(stmt_expr(s)) <= POOL_SIZE),
        gen_stmt(m, s) is Ok ==> gen_stmt(m, s).unwrap().int_sp == m.int_sp && gen_stmt(
            m,
            s,
        ).unwrap().float_sp == m.float_sp,
{
    lemma_gen_expr_ok(m, stmt_expr(s));
}

/// The driver's resource accounting: a statement sequence generates
/// successfully exactly when every single statement would, from the entry
/// pool pointers — statements neither help nor hinder one another, because
/// each returns the pools to the state it found them in.
pub proof fn lemma_gen_stmts_ok(m: GenState, ss: Seq<Stmt>)
    requires
        forall|k: int| 0 <= k < ss.len() ==> stmt_well_typed(#[trigger] ss[k]),
    ensures
        gen_stmts(m, ss) is Ok <==> (forall|k: int|
            0 <= k < ss.len() ==> ops_ok(stmt_expr(#[trigger] ss[k])) && sp_of_state(
                m,
                expr_type(stmt_expr(ss[k])),
            ) + reg_demand(stmt_expr(ss[k])) <= POOL_SIZE),
        gen_stmts(m, ss) is Ok ==> gen_stmts(m, ss).unwrap().int_sp == m.int_sp && gen_stmts(
            m,
            ss,
        ).unwrap().float_sp == m.float_sp,
    decreases ss.len(),
{
    if ss.len() > 0 {
        lemma_gen_stmt_ok(m, ss[0]);
        if gen_stmt(m, ss[0]) is Ok {
            let m1 = gen_stmt(m, ss[0]).unwrap();
            lemma_gen_stmts_ok(m1, ss.drop_first());
            assert forall|k: int| 1 <= k < ss.len() implies ss.drop_first()[k - 1] == ss[k] by {}
        } else {
            assert(!(ops_ok(stmt_expr(ss[0])) && sp_of_state(m, expr_type(stmt_expr(ss[0])))
                + reg_demand(stmt_expr(ss[0])) <= POOL_SIZE));
        }
    }
}

/// The code generator: a register allocator, the output accumulator, and
/// the literal pool (key, minted symbol), in minting order.
pub struct Compiler {
    pub reg_alloc: RegisterAllocator,
    pub asm_file: AsmFile,
    pub literals: Vec<(String, String)>,
}

impl View for Compiler {
    type V = GenState;

    open spec fn view(&self) -> GenState {
        GenState {
            int_sp: self.reg_alloc.int_sp(),
            float_sp: self.reg_alloc.float_sp(),
            literal_keys: self.literals@.map_values(|p: (String, String)| p.0@),
            rodata: self.asm_file.rodata_section@,
            data: self.asm_file.data_section@,
            bss: self.asm_file.bss_section@,
            text: self.asm_file.text_section@,
        }
    }
}

impl Compiler {
    /// The allocator holds the canonical pools, each pooled literal's symbol
    /// is the one minted for its position, and no key is pooled twice.
    pub open spec fn wf(&self) -> bool {
        &&& self.reg_alloc.wf()
        &&& forall|i: int|
            0 <= i < self.literals@.len() ==> (#[trigger] self.literals@[i].1)@ == sym_name(
                i as nat,
            )
        &&& forall|i: int, j: int|
            0 <= i < j < self.literals@.len() ==> (#[trigger] self.literals@[i].0)@ != (
            #[trigger] self.literals@[j].0)@
    }

    pub fn new() -> (r: Compiler)
        ensures
            r.wf(),
            r@ == initial_state(),
    {
        let r = Compiler {
            reg_alloc: RegisterAllocator::new(),
            asm_file: AsmFile::new(),
            literals: Vec::new(),
        };
        proof {
            assert(r@.literal_keys =~= Seq::<Seq<char>>::empty());
            assert(r@ =~= initial_state());
        }
        r
    }

    fn get_mov_variation(t: &Type) -> (r: &'static str)
        ensures
            r@ == mov_word(*t),
    {
        match t {
            Type::I32 => "mov",
            Type::F64 => "movsd",
        }
    }

    /// Deduplicating literal pool: the first occurrence of `(t, lit)` mints a
    /// fresh symbol and emits its read-only-data declaration once; a repeat
    /// returns the recorded symbol and emits nothing.
    fn store_literal(&mut self, t: &Type, lit: &str) -> (r: String)
        requires
            old(self).wf(),
        ensures
            final(self).wf(),
            final(self)@ == intern_state(old(self)@, *t, lit@),
            r@ == intern_sym(old(self)@, *t, lit@),
    {
        let typ: &'static str = match t {
            Type::I32 => "dd",
            Type::F64 => "dq",
        };
        let mut key = String::from_str(typ);
        key.append("|");
        key.append(lit);
        proof {
            assert(key@ =~= lit_key(*t, lit@));
        }
        let ghost keys = self@.literal_keys;
        let n = self.literals.len();
        let mut j: usize = 0;
        while j < n
            invariant
                n == self.literals@.len(),
                j <= n,
                key@ == lit_key(*t, lit@),
                forall|jj: int| 0 <= jj < j ==> keys[jj] != key@,
                keys == self@.literal_keys,
                self.wf(),
            decreases n - j,
        {
            if self.literals[j].0 == key {
                proof {
                    lemma_find_key_at(keys, key@, j as int);
                }
                return self.literals[j].1.clone();
            }
            j += 1;
        }
        proof {
            lemma_find_key_absent(keys, key@);
        }
        let mut literal = String::from_str("__aeiou__literal__");
        let count = crate::compiler::numeral::dec_string(self.literals.len());
        literal.append(count.as_str());
        proof {
            assert(literal@ =~= sym_name(keys.len()));
        }
        let mut decl = literal.clone();
        decl.append(" ");
        decl.append(typ);
        decl.append(" ");
        decl.append(lit);
        proof {
            assert(decl@ =~= rodata_decl(sym_name(keys.len()), *t, lit@));
        }
        self.asm_file.write_rodata(decl.as_str());
        let symbol = literal.clone();
        self.literals.push((key, symbol));
        proof {
            assert(self@.literal_keys =~= keys.push(lit_key(*t, lit@)));
            assert(self@ =~= intern_state(old(self)@, *t, lit@));
            let lits = self.literals@;
            assert forall|i: int| 0 <= i < lits.len() implies (#[trigger] lits[i].1)@ == sym_name(
                i as nat,
            ) by {
                if i < lits.len() - 1 {
                    assert(lits[i] == old(self).literals@[i]);
                }
            }
            assert forall|i: int, j: int| 0 <= i < j < lits.len() implies (#[trigger] lits[i].0)@
                != (#[trigger] lits[j].0)@ by {
                assert(keys[i] == lits[i].0@);
                if j < lits.len() - 1 {
                    assert(keys[j] == lits[j].0@);
                }
            }
        }
        literal
    }

    /// Moves a literal operand's text into a register.
    fn mov_l2r(&mut self, t: &Type, dst: &Register, literal: &str)
        requires
            old(self).wf(),
        ensures
            final(self).wf(),
            final(self)@ == emit_text(old(self)@, instr2_text(mov_word(*t), reg_name(*dst), literal@)),
    {
        let instruction = Self::get_mov_variation(t);
        self.asm_file.write_instruction2(instruction, dst.name(), literal);
        proof {
            assert(self@ =~= emit_text(old(self)@, instr2_text(mov_word(*t), reg_name(*dst), literal@)));
        }
    }

    /// Loads a register from the memory operand at `memory`.
    fn mov_m2r(&mut self, t: &Type, dst: &Register, memory: &str)
        requires
            old(self).wf(),
        ensures
            final(self).wf(),
            final(self)@ == emit_text(
                old(self)@,
                instr2_text(load_word(*t), reg_name(*dst), mem_operand(memory@)),
            ),
    {
        let instruction: &'static str = match t {
            Type::I32 => "movsxd",
            Type::F64 => "movsd",
        };
        let mut operand = String::from_str("[");
        operand.append(memory);
        operand.append("]");
        proof {
            assert(operand@ =~= mem_operand(memory@));
        }
        self.asm_file.write_instruction2(instruction, dst.name(), operand.as_str());
        proof {
            assert(self@ =~= emit_text(
                old(self)@,
                instr2_text(load_word(*t), reg_name(*dst), mem_operand(memory@)),
            ));
        }
    }

    /// Moves one register's value into another of the same class.
    fn mov_r2r(&mut self, t: &Type, dst: &Register, src: &Register)
        requires
            old(self).wf(),
        ensures
            final(self).wf(),
            final(self)@ == emit_text(
                old(self)@,
                instr2_text(mov_word(*t), reg_name(*dst), reg_name(*src)),
            ),
    {
        let instruction = Self::get_mov_variation(t);
        self.asm_file.write_instruction2(instruction, dst.name(), src.name());
        proof {
            assert(self@ =~= emit_text(
                old(self)@,
                instr2_text(mov_word(*t), reg_name(*dst), reg_name(*src)),
            ));
        }
    }

    /// Arithmetic negation of the value in `dst`; the floating path needs one
    /// spare register of the floating pool and reports exhaustion otherwise.
    fn neg(&mut self, t: &Type, dst: &Register) -> (r: Result<(), CompileError>)
        requires
            old(self).wf(),
        ensures
            final(self).wf(),
            gen_neg(old(self)@, *t, *dst) is Ok ==> r is Ok && final(self)@ == gen_neg(
                old(self)@,
                *t,
                *dst,
            ).unwrap(),
            gen_neg(old(self)@, *t, *dst) is Err ==> r == Result::<(), CompileError>::Err(
                gen_neg(old(self)@, *t, *dst)->Err_0,
            ),
    {
        match t {
            Type::I32 => {
                self.asm_file.write_instruction1("neg", dst.name());
                proof {
                    assert(self@ =~= emit_text(old(self)@, instr1_text("neg"@, reg_name(*dst))));
                }
                Result::Ok(())
            },
            Type::F64 => {
                let neg_literal = self.store_literal(t, "-1.0");
                if self.reg_alloc.is_full(t) {
                    return Result::Err(CompileError::OutOfRegisters);
                }
                let temp_temp = self.reg_alloc.allocate(t);
                proof {
                    assert(self@ =~= with_sp(
                        intern_state(old(self)@, Type::F64, "-1.0"@),
                        Type::F64,
                        intern_state(old(self)@, Type::F64, "-1.0"@).float_sp + 1,
                    ));
                }
                self.mov_m2r(t, &temp_temp, neg_literal.as_str());
                self.asm_file.write_instruction2("mulsd", dst.name(), temp_temp.name());
                self.reg_alloc.dealloc(t);
                proof {
                    assert(self@ =~= gen_neg(old(self)@, *t, *dst).unwrap());
                }
                Result::Ok(())
            },
        }
    }

    /// Integer or scalar-double addition of `src` into `dst`.
    fn add(&mut self, t: &Type, dst: &Register, src: &Register)
        requires
            old(self).wf(),
        ensures
            final(self).wf(),
            final(self)@ == emit_text(
                old(self)@,
                instr2_text(add_word(*t), reg_name(*dst), reg_name(*src)),
            ),
    {
        let instruction: &'static str = match t {
            Type::I32 => "add",
            Type::F64 => "addsd",
        };
        self.asm_file.write_instruction2(instruction, dst.name(), src.name());
        proof {
            assert(self@ =~= emit_text(
                old(self)@,
                instr2_text(add_word(*t), reg_name(*dst), reg_name(*src)),
            ));
        }
    }

    /// Integer or scalar-double subtraction of `src` from `dst`.
    fn sub(&mut self, t: &Type, dst: &Register, src: &Register)
        requires
            old(self).wf(),
        ensures
            final(self).wf(),
            final(self)@ == emit_text(
                old(self)@,
                instr2_text(sub_word(*t), reg_name(*dst), reg_name(*src)),
            ),
    {
        let instruction: &'static str = match t {
            Type::I32 => "sub",
            Type::F64 => "subsd",
        };
        self.asm_file.write_instruction2(instruction, dst.name(), src.name());
        proof {
            assert(self@ =~= emit_text(
                old(self)@,
                instr2_text(sub_word(*t), reg_name(*dst), reg_name(*src)),
            ));
        }
    }

    /// Signed integer or scalar-double multiplication of `dst` by `src`.
    fn mul(&mut self, t: &Type, dst: &Register, src: &Register)
        requires
            old(self).wf(),
        ensures
            final(self).wf(),
            final(self)@ == emit_text(
                old(self)@,
                instr2_text(mul_word(*t), reg_name(*dst), reg_name(*src)),
            ),
    {
        let instruction: &'static str = match t {
            Type::I32 => "imul",
            Type::F64 => "mulsd",
        };
        self.asm_file.write_instruction2(instruction, dst.name(), src.name());
        proof {
            assert(self@ =~= emit_text(
                old(self)@,
                instr2_text(mul_word(*t), reg_name(*dst), reg_name(*src)),
            ));
        }
    }

    /// Division of `dst` by `src`. The 32-bit path realizes the wide-division
    /// idiom: clear the high half, move the dividend into the designated
    /// dividend register, divide, move the quotient back into `dst`.
    fn div(&mut self, t: &Type, dst: &Register, src: &Register)
        requires
            old(self).wf(),
        ensures
            final(self).wf(),
            final(self)@ == gen_div(old(self)@, *t, *dst, *src),
    {
        match t {
            Type::I32 => {
                self.mov_l2r(t, &Register::Rdx, "0");
                self.mov_r2r(t, &Register::Rax, dst);
                self.asm_file.write_instruction1("idiv", src.name());
                self.mov_r2r(t, dst, &Register::Rax);
                proof {
                    assert(self@ =~= gen_div(old(self)@, *t, *dst, *src));
                }
            },
            Type::F64 => {
                self.asm_file.write_instruction2("divsd", dst.name(), src.name());
                proof {
                    assert(self@ =~= gen_div(old(self)@, *t, *dst, *src));
                }
            },
        }
    }

    /// Emits the formatted-print call for the result on top of `t`'s pool.
    fn print(&mut self, t: &Type)
        requires
            old(self).wf(),
            sp_of_state(old(self)@, *t) > 0,
        ensures
            final(self).wf(),
            final(self)@ == gen_print(old(self)@, *t),
    {
        let s = self.reg_alloc.peek(t);
        match t {
            Type::I32 => {
                self.asm_file.write_instruction2("mov", Register::Rdi.name(), "__aeiou__format_i32");
                self.mov_r2r(t, &Register::Rsi, &s);
                self.asm_file.write_instruction2("mov", Register::Rax.name(), "0");
            },
            Type::F64 => {
                self.asm_file.write_instruction2("mov", Register::Rdi.name(), "__aeiou__format_f64");
                self.mov_r2r(t, &Register::Xmm0, &s);
                self.asm_file.write_instruction2("mov", Register::Rax.name(), "1");
            },
        }
        self.asm_file.write_instruction1("call", "printf");
        proof {
            assert(self@ =~= gen_print(old(self)@, *t));
        }
    }

    /// Pushes the result on top of `t`'s pool onto the native call stack.
    fn var(&mut self, t: &Type)
        requires
            old(self).wf(),
            sp_of_state(old(self)@, *t) > 0,
        ensures
            final(self).wf(),
            final(self)@ == gen_var(old(self)@, *t),
    {
        let a = self.reg_alloc.peek(t);
        self.asm_file.write_instruction1("push", a.name());
        proof {
            assert(self@ =~= gen_var(old(self)@, *t));
        }
    }

    /// Generates code for one well-typed expression tree and returns its
    /// type, leaving the result in the top register of that type's pool.
    /// Succeeds exactly when `gen_expr` does, and leaves the generator in
    /// precisely the state `gen_expr` computes.
    pub fn compile_expr(&mut self, expr: &Expr) -> (r: Result<Type, CompileError>)
        requires
            old(self).wf(),
            well_typed(*expr),
        ensures
            final(self).wf(),
            gen_expr(old(self)@, *expr) is Ok ==> r == Result::<Type, CompileError>::Ok(
                expr_type(*expr),
            ) && final(self)@ == gen_expr(old(self)@, *expr).unwrap(),
            gen_expr(old(self)@, *expr) is Err ==> r == Result::<Type, CompileError>::Err(
                gen_expr(old(self)@, *expr)->Err_0,
            ),
        decreases *expr,
    {
        let ghost m0 = self@;
        match expr {
            Expr::Binary(t, left, op, right) => match self.compile_expr(&**left) {
                Result::Err(e) => Result::Err(e),
                Result::Ok(_) => {
                    let ghost m1 = self@;
                    match self.compile_expr(&**right) {
                        Result::Err(e) => Result::Err(e),
                        Result::Ok(_) => {
                            let ghost m2 = self@;
                            proof {
                                lemma_gen_expr_ok(m0, *&**left);
                                lemma_gen_expr_ok(m1, *&**right);
                            }
                            let src = self.reg_alloc.dealloc(t);
                            let dst = self.reg_alloc.peek(t);
                            proof {
                                assert(self@ =~= with_sp(m2, *t, (sp_of_state(m2, *t) - 1) as nat));
                            }
                            match op {
                                TokenType::Plus => {
                                    self.add(t, &dst, &src);
                                    proof {
                                        assert(self@ =~= gen_expr(m0, *expr).unwrap());
                                    }
                                    Result::Ok(*t)
                                },
                                TokenType::Minus => {
                                    self.sub(t, &dst, &src);
                                    proof {
                                        assert(self@ =~= gen_expr(m0, *expr).unwrap());
                                    }
                                    Result::Ok(*t)
                                },
                                TokenType::Star => {
                                    self.mul(t, &dst, &src);
                                    proof {
                                        assert(self@ =~= gen_expr(m0, *expr).unwrap());
                                    }
                                    Result::Ok(*t)
                                },
                                TokenType::Slash => {
                                    self.div(t, &dst, &src);
                                    proof {
                                        assert(self@ =~= gen_expr(m0, *expr).unwrap());
                                    }
                                    Result::Ok(*t)
                                },
                                _ => Result::Err(CompileError::InvalidOperator),
                            }
                        },
                    }
                },
            },
            Expr::Grouping(_, group) => self.compile_expr(&**group),
            Expr::Unary(t, u) => match self.compile_expr(&**u) {
                Result::Err(e) => Result::Err(e),
                Result::Ok(_) => {
                    proof {
                        lemma_gen_expr_ok(m0, *&**u);
                    }
                    let dst = self.reg_alloc.peek(t);
                    match self.neg(t, &dst) {
                        Result::Ok(_) => Result::Ok(*t),
                        Result::Err(e) => Result::Err(e),
                    }
                },
            },
            Expr::Literal(t, lit) => {
                if self.reg_alloc.is_full(t) {
                    return Result::Err(CompileError::OutOfRegisters);
                }
                let dst = self.reg_alloc.allocate(t);
                proof {
                    assert(self@ =~= with_sp(m0, *t, sp_of_state(m0, *t) + 1));
                }
                let literal = self.store_literal(t, lit.as_str());
                self.mov_m2r(t, &dst, literal.as_str());
                proof {
                    assert(self@ =~= gen_expr(m0, *expr).unwrap());
                }
                Result::Ok(*t)
            },
        }
    }

    /// Runs generation over a parsed, type-checked statement sequence and
    /// returns the finalized assembly text. On success every register taken
    /// for a statement's result has been released again, so both pool
    /// pointers end at their pre-call values; on failure the error of the
    /// first failing statement is reported and no output is finalized.
    pub fn compile(&mut self, declarations: Vec<Stmt>) -> (r: Result<String, CompileError>)
        requires
            old(self).wf(),
            forall|i: int|
                0 <= i < declarations@.len() ==> stmt_well_typed(#[trigger] declarations@[i]),
        ensures
            final(self).wf(),
            gen_stmts(old(self)@, declarations@) is Ok ==> r is Ok && r.unwrap()@ == output_text(
                gen_stmts(old(self)@, declarations@).unwrap(),
            ) && final(self)@ == (GenState {
                text: gen_stmts(old(self)@, declarations@).unwrap().text + line_of(epilogue()),
                ..gen_stmts(old(self)@, declarations@).unwrap()
            }) && final(self)@.int_sp == old(self)@.int_sp && final(self)@.float_sp == old(
                self,
            )@.float_sp,
            gen_stmts(old(self)@, declarations@) is Err ==> r == Result::<String, CompileError>::Err(
                gen_stmts(old(self)@, declarations@)->Err_0,
            ),
    {
        let ghost m0 = self@;
        proof {
            assert(declarations@.skip(0) =~= declarations@);
        }
        let n = declarations.len();
        let mut i: usize = 0;
        while i < n
            invariant
                m0 == old(self)@,
                self.wf(),
                n == declarations@.len(),
                i <= n,
                forall|k: int| 0 <= k < n ==> stmt_well_typed(#[trigger] declarations@[k]),
                gen_stmts(m0, declarations@) == gen_stmts(self@, declarations@.skip(i as int)),
                self@.int_sp == m0.int_sp,
                self@.float_sp == m0.float_sp,
            decreases n - i,
        {
            let ghost mc = self@;
            let ghost rest = declarations@.skip(i as int);
            proof {
                assert(rest[0] == declarations@[i as int]);
                assert(rest.drop_first() =~= declarations@.skip(i as int + 1));
            }
            match &declarations[i] {
                Stmt::Print(expr) => match self.compile_expr(&**expr) {
                    Result::Err(e) => {
                        proof {
                            assert(gen_stmt(mc, rest[0]) == Result::<GenState, CompileError>::Err(e));
                        }
                        return Result::Err(e);
                    },
                    Result::Ok(t) => {
                        proof {
                            lemma_gen_expr_ok(mc, *&**expr);
                        }
                        self.print(&t);
                        self.reg_alloc.dealloc(&t);
                        proof {
                            assert(self@ =~= gen_stmt(mc, rest[0]).unwrap());
                        }
                    },
                },
                Stmt::Expression(expr) => match self.compile_expr(&**expr) {
                    Result::Err(e) => {
                        proof {
                            assert(gen_stmt(mc, rest[0]) == Result::<GenState, CompileError>::Err(e));
                        }
                        return Result::Err(e);
                    },
                    Result::Ok(t) => {
                        proof {
                            lemma_gen_expr_ok(mc, *&**expr);
                        }
                        self.reg_alloc.dealloc(&t);
                        proof {
                            assert(self@ =~= gen_stmt(mc, rest[0]).unwrap());
                        }
                    },
                },
                Stmt::Var(_, _, expr) => match self.compile_expr(&**expr) {
                    Result::Err(e) => {
                        proof {
                            assert(gen_stmt(mc, rest[0]) == Result::<GenState, CompileError>::Err(e));
                        }
                        return Result::Err(e);
                    },
                    Result::Ok(t) => {
                        proof {
                            lemma_gen_expr_ok(mc, *&**expr);
                        }
                        self.var(&t);
                        self.reg_alloc.dealloc(&t);
                        proof {
                            assert(self@ =~= gen_stmt(mc, rest[0]).unwrap());
                        }
                    },
                },
            }
            i += 1;
        }
        proof {
            assert(declarations@.skip(n as int) =~= Seq::<Stmt>::empty());
        }
        let ghost mdone = self@;
        let out = self.asm_file.finalize();
        proof {
            assert(out@ == output_text(mdone));
            assert(self@ =~= (GenState { text: mdone.text + line_of(epilogue()), ..mdone }));
        }
        Result::Ok(out)
    }
}

} // verus!
